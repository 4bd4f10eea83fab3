//! A DNS forwarder's cache: the name asked in a query, and the responses
//! remembered for a while by name. The sockets are the caller's.
use vstd::prelude::*;
use vstd::string::StringExecFns;
use crate::ip_header::IpAddress;
use crate::text::{
    bytes_case_variant, chars_case_variant, from_utf8_lossy, to_lowercase, utf8_lossy, lowercase,
    push_char,
};

verus! {

/// How long a response stays in the cache, in seconds.
pub const CACHE_TTL_SECONDS: u64 = 60;

/// How long a response stays in the cache, in the milliseconds of the clock
/// that the caller passes.
pub const CACHE_TTL_MILLIS: u64 = 60_000;

/// An address and port.
#[derive(Clone, Copy, Debug, PartialEq, Eq)]
pub struct SocketAddress {
    pub ip: IpAddress,
    pub port: u16,
}

/// The labels of the first name of a DNS query, read from `offset` on: they
/// end at a zero length byte or at a compression pointer (top two bits set);
/// `None` when the packet ends first.
pub open spec fn spec_labels(packet: Seq<u8>, offset: int) -> Option<Seq<Seq<u8>>>
    decreases packet.len() - offset,
{
    if offset < 0 || offset >= packet.len() {
        None
    } else {
        let len = packet[offset] as int;
        if len == 0 || len >= 0xc0 {
            Some(Seq::empty())
        } else if offset + 1 + len > packet.len() {
            None
        } else {
            match spec_labels(packet, offset + 1 + len) {
                Some(rest) => Some(seq![packet.subrange(offset + 1, offset + 1 + len)] + rest),
                None => None,
            }
        }
    }
}

/// The text of one label: decoded as UTF-8 (invalid bytes replaced) and
/// lower-cased.
pub open spec fn label_text(label: Seq<u8>) -> Seq<char> {
    lowercase(utf8_lossy(label))
}

/// The texts of labels joined with dots.
pub open spec fn join_labels(labels: Seq<Seq<u8>>) -> Seq<char>
    decreases labels.len(),
{
    if labels.len() == 0 {
        Seq::empty()
    } else if labels.len() == 1 {
        label_text(labels[0])
    } else {
        join_labels(labels.drop_last()) + seq!['.'] + label_text(labels.last())
    }
}

/// The first name asked in a DNS query (after the 12-byte header), lower
/// case, labels joined with dots; `None` for a packet too short or
/// malformed, or a name without labels.
pub open spec fn spec_dns_name(packet: Seq<u8>) -> Option<Seq<char>> {
    if packet.len() < 12 {
        None
    } else {
        match spec_labels(packet, 12) {
            Some(labels) => if labels.len() == 0 {
                None
            } else {
                Some(join_labels(labels))
            },
            None => None,
        }
    }
}

/// The labels read from an offset past the header depend only on the bytes
/// from the header's end on.
proof fn lemma_labels_past_header(p1: Seq<u8>, p2: Seq<u8>, offset: int)
    requires
        p1.len() == p2.len(),
        12 <= offset,
        p1.len() >= 12,
        p1.skip(12) == p2.skip(12),
    ensures
        spec_labels(p1, offset) == spec_labels(p2, offset),
    decreases p1.len() - offset,
{
    assert forall|i: int| 12 <= i < p1.len() implies p1[i] == p2[i] by {
        assert(p1.skip(12)[i - 12] == p2.skip(12)[i - 12]);
    }
    if offset < p1.len() {
        let len = p1[offset] as int;
        if len != 0 && len < 0xc0 && offset + 1 + len <= p1.len() {
            lemma_labels_past_header(p1, p2, offset + 1 + len);
            assert(p1.subrange(offset + 1, offset + 1 + len) =~= p2.subrange(offset + 1, offset + 1 + len));
        }
    }
}

/// The name asked in a query ignores the 12-byte DNS header (the
/// transaction ID and flags): two queries that differ only there ask the same
/// name.
pub proof fn lemma_dns_name_ignores_header(p1: Seq<u8>, p2: Seq<u8>)
    requires
        p1.len() == p2.len(),
        p1.skip(12) == p2.skip(12),
    ensures
        spec_dns_name(p1) == spec_dns_name(p2),
{
    if p1.len() >= 12 {
        lemma_labels_past_header(p1, p2, 12);
    }
}

/// The name joined from labels depends only on the text of each label: labels
/// whose texts agree (after decoding and lower-casing) give the same name.
pub proof fn lemma_join_labels_by_text(l1: Seq<Seq<u8>>, l2: Seq<Seq<u8>>)
    requires
        l1.len() == l2.len(),
        forall|i: int| 0 <= i < l1.len() ==> label_text(#[trigger] l1[i]) == label_text(l2[i]),
    ensures
        join_labels(l1) == join_labels(l2),
    decreases l1.len(),
{
    if l1.len() > 1 {
        lemma_join_labels_by_text(l1.drop_last(), l2.drop_last());
        assert(label_text(l1[l1.len() - 1]) == label_text(l2[l2.len() - 1]));
    } else if l1.len() == 1 {
        assert(label_text(l1[0]) == label_text(l2[0]));
    }
}

proof fn lemma_labels_step(packet: Seq<u8>, offset: int, acc: Seq<Seq<u8>>)
    requires
        0 <= offset < packet.len(),
        packet[offset] != 0,
        packet[offset] < 0xc0,
        offset + 1 + packet[offset] <= packet.len(),
    ensures
        ({
            let len = packet[offset] as int;
            let next = acc.push(packet.subrange(offset + 1, offset + 1 + len));
            match spec_labels(packet, offset + 1 + len) {
                Some(rest) => spec_labels(packet, offset) == Some(
                    seq![packet.subrange(offset + 1, offset + 1 + len)] + rest,
                ) && acc + (seq![packet.subrange(offset + 1, offset + 1 + len)] + rest) == next
                    + rest,
                None => spec_labels(packet, offset) is None,
            }
        }),
{
    let len = packet[offset] as int;
    let first = seq![packet.subrange(offset + 1, offset + 1 + len)];
    match spec_labels(packet, offset + 1 + len) {
        Some(rest) => {
            assert(acc + (first + rest) =~= acc.push(first[0]) + rest);
        },
        None => {},
    }
}

/// The queries `p1` and `p2` hold the same labels but for the case of the
/// ASCII letters inside them (their headers may differ).
pub open spec fn same_labels_up_to_case(p1: Seq<u8>, p2: Seq<u8>) -> bool {
    &&& p1.len() >= 12
    &&& p2.len() >= 12
    &&& spec_labels(p1, 12) matches Some(l1)
    &&& spec_labels(p2, 12) matches Some(l2)
    &&& l1.len() == l2.len()
    &&& forall|i: int| 0 <= i < l1.len() ==> bytes_case_variant(#[trigger] l1[i], l2[i])
}

/// The first name asked in a DNS query.
pub fn extract_dns_name(packet: &[u8]) -> (r: Option<String>)
    ensures
        match (r, spec_dns_name(packet@)) {
            (Some(s), Some(n)) => s@ == n,
            (None, None) => true,
            _ => false,
        },
        forall|p2: Seq<u8>| #[trigger] same_labels_up_to_case(packet@, p2) ==> spec_dns_name(p2)
            == spec_dns_name(packet@),
{
    if packet.len() < 12 {
        return None;
    }
    let mut offset: usize = 12;
    let mut labels: Vec<Vec<u8>> = Vec::new();
    let ghost mut acc: Seq<Seq<u8>> = Seq::empty();
    loop
        invariant
            12 <= offset,
            packet@.len() >= 12,
            acc.len() == labels@.len(),
            forall|i: int| 0 <= i < acc.len() ==> #[trigger] labels@[i]@ == acc[i],
            match spec_labels(packet@, 12) {
                Some(all) => match spec_labels(packet@, offset as int) {
                    Some(rest) => all == acc + rest,
                    None => false,
                },
                None => spec_labels(packet@, offset as int) is None,
            },
        ensures
            12 <= offset,
            packet@.len() >= 12,
            acc.len() == labels@.len(),
            forall|i: int| 0 <= i < acc.len() ==> #[trigger] labels@[i]@ == acc[i],
            spec_labels(packet@, offset as int) == Some(Seq::<Seq<u8>>::empty()),
            match spec_labels(packet@, 12) {
                Some(all) => all == acc,
                None => false,
            },
        decreases packet@.len() - offset,
    {
        if offset >= packet.len() {
            return None;
        }
        let len = packet[offset] as usize;
        if len == 0 {
            proof {
                assert(acc + Seq::<Seq<u8>>::empty() =~= acc);
            }
            break;
        }
        if len >= 0xc0 {
            proof {
                assert(acc + Seq::<Seq<u8>>::empty() =~= acc);
            }
            break;
        }
        if len > packet.len() - offset - 1 {
            return None;
        }
        let label = vstd::slice::slice_subrange(packet, offset + 1, offset + 1 + len);
        proof { lemma_labels_step(packet@, offset as int, acc); }
        labels.push(vstd::slice::slice_to_vec(label));
        proof {
            acc = acc.push(label@);
        }
        offset = offset + 1 + len;
    }
    if labels.len() == 0 {
        return None;
    }
    let mut name = String::new();
    let mut i: usize = 0;
    while i < labels.len()
        invariant
            1 <= labels@.len(),
            acc.len() == labels@.len(),
            forall|k: int| 0 <= k < acc.len() ==> #[trigger] labels@[k]@ == acc[k],
            i <= labels@.len(),
            name@ == join_labels(acc.take(i as int)),
            forall|k: int, b: Seq<u8>|
                0 <= k < i && bytes_case_variant(acc[k], b) ==> #[trigger] label_text(b) == label_text(
                    #[trigger] acc[k],
                ),
        decreases labels@.len() - i,
    {
        let decoded = from_utf8_lossy(labels[i].as_slice());
        let lower = to_lowercase(decoded.as_str());
        if i != 0 {
            push_char(&mut name, '.');
        }
        name.append(lower.as_str());
        proof {
            assert(acc.take(i + 1).drop_last() =~= acc.take(i as int));
            assert(acc.take(i + 1).last() == acc[i as int]);
            assert(name@ =~= join_labels(acc.take(i + 1)));
            assert forall|k: int, b: Seq<u8>|
                0 <= k < i + 1 && bytes_case_variant(acc[k], b) implies #[trigger] label_text(b)
                == label_text(#[trigger] acc[k]) by {
                if k == i {
                    assert(labels@[k]@ == acc[k]);
                    assert(chars_case_variant(decoded@, utf8_lossy(b)));
                    assert(lowercase(utf8_lossy(b)) == lower@);
                }
            }
        }
        i = i + 1;
    }
    assert(acc.take(acc.len() as int) =~= acc);
    proof {
        assert forall|p2: Seq<u8>| #[trigger] same_labels_up_to_case(packet@, p2) implies spec_dns_name(p2)
            == spec_dns_name(packet@) by {
            let l2 = spec_labels(p2, 12).unwrap();
            assert forall|k: int| 0 <= k < acc.len() implies label_text(#[trigger] acc[k]) == label_text(
                l2[k],
            ) by {
                assert(bytes_case_variant(acc[k], l2[k]));
            }
            lemma_join_labels_by_text(acc, l2);
        }
    }
    Some(name)
}


/// A cached response and the time it expires at.
#[derive(Debug)]
pub struct CacheEntry {
    pub response: Vec<u8>,
    pub expires_at: u64,
}

/// What a cache holds: for each name, the response and its expiry time.
pub type CacheView = Map<Seq<char>, (Seq<u8>, u64)>;

/// The response cached for `name` that has not expired at `now`.
pub open spec fn spec_lookup(m: CacheView, name: Seq<char>, now: u64) -> Option<Seq<u8>> {
    if m.contains_key(name) && m[name].1 > now {
        Some(m[name].0)
    } else {
        None
    }
}

/// The cache after storing `response` for `name` at time `now`.
pub open spec fn spec_store(m: CacheView, name: Seq<char>, response: Seq<u8>, now: u64) -> CacheView {
    m.insert(name, (response, (now + CACHE_TTL_MILLIS) as u64))
}

/// A response just stored is answered for `name` until it expires, and not after.
pub proof fn lemma_store_then_lookup(m: CacheView, name: Seq<char>, response: Seq<u8>, now: u64, later: u64)
    requires
        now + CACHE_TTL_MILLIS <= u64::MAX,
        now <= later,
    ensures
        later < now + CACHE_TTL_MILLIS ==> spec_lookup(spec_store(m, name, response, now), name, later)
            == Some(response),
        later >= now + CACHE_TTL_MILLIS ==> spec_lookup(spec_store(m, name, response, now), name, later)
            is None,
{
}

/// Storing a response for one name leaves what is answered for the others.
pub proof fn lemma_store_keeps_others(
    m: CacheView,
    name: Seq<char>,
    other: Seq<char>,
    response: Seq<u8>,
    now: u64,
    at: u64,
)
    requires
        name != other,
    ensures
        spec_lookup(spec_store(m, name, response, now), other, at) == spec_lookup(m, other, at),
{
}

/// The DNS forwarder's state: the cache, the upstream server and the address
/// it listens on.
/// The answer to `query` made of a cached `response`: the response with its
/// first two bytes (the transaction ID) replaced by those of the query; a
/// response too short to carry an ID is sent as it is.
pub open spec fn answer_for(query: Seq<u8>, response: Seq<u8>) -> Seq<u8> {
    if query.len() >= 2 && response.len() >= 2 {
        query.take(2) + response.skip(2)
    } else {
        response
    }
}

/// `response` with the transaction ID of `query`.
pub fn with_query_id(query: &[u8], response: Vec<u8>) -> (r: Vec<u8>)
    ensures
        r@ == answer_for(query@, response@),
{
    let mut r = response;
    if query.len() >= 2 && r.len() >= 2 {
        r.set(0, query[0]);
        r.set(1, query[1]);
        assert(r@ =~= query@.take(2) + response@.skip(2));
    }
    r
}

pub struct DnsCache {
    names: Vec<String>,
    entries: Vec<CacheEntry>,
    upstream: SocketAddress,
    bind_addr: SocketAddress,
}

impl View for DnsCache {
    type V = CacheView;

    closed spec fn view(&self) -> CacheView {
        Map::new(
            |n: Seq<char>| exists|i: int| 0 <= i < self.names@.len() && #[trigger] self.names@[i]@ == n,
            |n: Seq<char>| {
                let i = choose|i: int| 0 <= i < self.names@.len() && #[trigger] self.names@[i]@ == n;
                (self.entries@[i].response@, self.entries@[i].expires_at)
            },
        )
    }
}

impl DnsCache {
    pub closed spec fn spec_upstream(&self) -> SocketAddress {
        self.upstream
    }

    pub closed spec fn spec_bind_addr(&self) -> SocketAddress {
        self.bind_addr
    }

    /// The upstream DNS server.
    pub fn upstream(&self) -> (a: SocketAddress)
        ensures
            a == self.spec_upstream(),
    {
        self.upstream
    }

    /// The address the forwarder listens on.
    pub fn bind_addr(&self) -> (a: SocketAddress)
        ensures
            a == self.spec_bind_addr(),
    {
        self.bind_addr
    }

    /// One entry per name.
    pub closed spec fn wf(&self) -> bool {
        &&& self.names@.len() == self.entries@.len()
        &&& forall|i: int, j: int|
            0 <= i < self.names@.len() && 0 <= j < self.names@.len() && i != j ==> #[trigger] self.names@[i]@
                != #[trigger] self.names@[j]@
    }

    /// A forwarder listening on `bind_addr`, forwarding to 8.8.8.8:53, with
    /// an empty cache.
    pub fn new(bind_addr: SocketAddress) -> (c: Self)
        ensures
            c.wf(),
            c@ == CacheView::empty(),
            c.spec_upstream() == (SocketAddress { ip: IpAddress::V4([8, 8, 8, 8]), port: 53 }),
            c.spec_bind_addr() == bind_addr,
    {
        let c = DnsCache {
            names: Vec::new(),
            entries: Vec::new(),
            upstream: SocketAddress { ip: IpAddress::V4([8, 8, 8, 8]), port: 53 },
            bind_addr,
        };
        assert(c@ =~= CacheView::empty());
        c
    }

    /// The index of `name`, if cached.
    fn find(&self, name: &String) -> (r: Option<usize>)
        requires
            self.wf(),
        ensures
            match r {
                Some(i) => i < self.names@.len() && self.names@[i as int]@ == name@,
                None => forall|i: int| 0 <= i < self.names@.len() ==> self.names@[i]@ != name@,
            },
    {
        let mut i: usize = 0;
        while i < self.names.len()
            invariant
                i <= self.names@.len(),
                forall|k: int| 0 <= k < i ==> self.names@[k]@ != name@,
            decreases self.names@.len() - i,
        {
            if self.names[i] == *name {
                return Some(i);
            }
            i = i + 1;
        }
        None
    }

    proof fn lemma_view_at(&self, i: int)
        requires
            self.wf(),
            0 <= i < self.names@.len(),
        ensures
            self@.contains_key(self.names@[i]@),
            self@[self.names@[i]@] == (self.entries@[i].response@, self.entries@[i].expires_at),
    {
        let n = self.names@[i]@;
        assert(self@.dom().contains(n));
        let j = choose|j: int| 0 <= j < self.names@.len() && #[trigger] self.names@[j]@ == n;
        assert(j == i);
    }

    /// The response cached for `name`, unless it has expired at `now`.
    pub fn lookup(&self, name: &String, now: u64) -> (r: Option<Vec<u8>>)
        requires
            self.wf(),
        ensures
            match (r, spec_lookup(self@, name@, now)) {
                (Some(v), Some(s)) => v@ == s,
                (None, None) => true,
                _ => false,
            },
    {
        match self.find(name) {
            Some(i) => {
                proof { self.lemma_view_at(i as int); }
                if self.entries[i].expires_at > now {
                    Some(vstd::slice::slice_to_vec(self.entries[i].response.as_slice()))
                } else {
                    None
                }
            },
            None => {
                assert(!self@.contains_key(name@));
                None
            },
        }
    }

    /// Caches `response` for `name` from `now` on.
    pub fn store(&mut self, name: String, response: Vec<u8>, now: u64)
        requires
            old(self).wf(),
            now + CACHE_TTL_MILLIS <= u64::MAX,
        ensures
            final(self).wf(),
            final(self)@ == spec_store(old(self)@, name@, response@, now),
            final(self).spec_upstream() == old(self).spec_upstream(),
            final(self).spec_bind_addr() == old(self).spec_bind_addr(),
    {
        let entry = CacheEntry { response, expires_at: now + CACHE_TTL_MILLIS };
        match self.find(&name) {
            Some(i) => {
                self.entries.set(i, entry);
                proof {
                    let m = spec_store(old(self)@, name@, entry.response@, now);
                    assert forall|n: Seq<char>| #[trigger] self@.contains_key(n) <==> m.contains_key(n) by {
                        if m.contains_key(n) && n != name@ {
                            let j = choose|j: int| 0 <= j < old(self).names@.len() && #[trigger] old(self).names@[j]@ == n;
                            assert(self.names@[j]@ == n);
                        }
                        if n == name@ {
                            assert(self.names@[i as int]@ == n);
                        }
                    }
                    assert forall|n: Seq<char>| #[trigger] self@.contains_key(n) implies self@[n] == m[n] by {
                        let j = choose|j: int| 0 <= j < self.names@.len() && #[trigger] self.names@[j]@ == n;
                        self.lemma_view_at(j);
                        if n != name@ {
                            old(self).lemma_view_at(j);
                        }
                    }
                    assert(self@ =~= m);
                }
            },
            None => {
                let ghost old_names = self.names@;
                self.names.push(name);
                self.entries.push(entry);
                proof {
                    let m = spec_store(old(self)@, name@, entry.response@, now);
                    let last = old_names.len() as int;
                    assert forall|n: Seq<char>| #[trigger] self@.contains_key(n) <==> m.contains_key(n) by {
                        if m.contains_key(n) && n != name@ {
                            let j = choose|j: int| 0 <= j < old(self).names@.len() && #[trigger] old(self).names@[j]@ == n;
                            assert(self.names@[j]@ == n);
                        }
                        if n == name@ {
                            assert(self.names@[last]@ == n);
                        }
                    }
                    assert forall|n: Seq<char>| #[trigger] self@.contains_key(n) implies self@[n] == m[n] by {
                        let j = choose|j: int| 0 <= j < self.names@.len() && #[trigger] self.names@[j]@ == n;
                        self.lemma_view_at(j);
                        if j < last {
                            old(self).lemma_view_at(j);
                        }
                    }
                    assert(self@ =~= m);
                }
            },
        }
    }

    /// The cached answer to a query, if its name is cached and has not
    /// expired at `now`: the cached response, carrying the query's
    /// transaction ID.
    pub fn answer_from_cache(&self, query: &[u8], now: u64) -> (r: Option<Vec<u8>>)
        requires
            self.wf(),
        ensures
            match spec_dns_name(query@) {
                Some(n) => match (r, spec_lookup(self@, n, now)) {
                    (Some(v), Some(s)) => v@ == answer_for(query@, s),
                    (None, None) => true,
                    _ => false,
                },
                None => r is None,
            },
    {
        match extract_dns_name(query) {
            Some(name) => match self.lookup(&name, now) {
                Some(response) => Some(with_query_id(query, response)),
                None => None,
            },
            None => None,
        }
    }

    /// Remembers the response to a query under the query's name, if it has one.
    pub fn remember(&mut self, query: &[u8], response: &[u8], now: u64)
        requires
            old(self).wf(),
            now + CACHE_TTL_MILLIS <= u64::MAX,
        ensures
            final(self).wf(),
            final(self)@ == match spec_dns_name(query@) {
                Some(n) => spec_store(old(self)@, n, response@, now),
                None => old(self)@,
            },
            final(self).spec_upstream() == old(self).spec_upstream(),
            final(self).spec_bind_addr() == old(self).spec_bind_addr(),
    {
        if let Some(name) = extract_dns_name(query) {
            self.store(name, vstd::slice::slice_to_vec(response), now);
        }
    }
}

} // verus!
