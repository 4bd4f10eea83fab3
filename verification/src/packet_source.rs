//! A source from which packets for the device can be pulled again: when a
//! packet could not be sent at once because the device's buffers were full,
//! it is kept, and pulled once room is available.
use vstd::prelude::*;
use crate::ip_packet::IpPacket;

verus! {

/// A source that may hold a packet waiting for the device.
pub trait PacketSource {
    /// The source is in a state in which it can be asked for its packet.
    spec fn source_wf(&self) -> bool;

    /// The packet that waits, if any.
    fn get(&mut self) -> (p: Option<IpPacket<'_>>)
        requires
            old(self).source_wf(),
        ensures
            final(self).source_wf(),
    ;

    /// The waiting packet was sent: the source forgets it.
    fn next(&mut self)
        requires
            old(self).source_wf(),
        ensures
            final(self).source_wf(),
    ;
}

} // verus!
