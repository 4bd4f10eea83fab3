//! Packet-level core of a reverse-tethering relay: IP/TCP/UDP header codecs,
//! packet framing and construction, the synthetic TCP state machine, a DNS
//! cache, SOCKS5 framing and error classification, each with its contract.

pub mod text;
pub mod binary;
pub mod execution_error;
pub mod byte_order;
pub mod stream_buffer;
pub mod byte_buffer;
pub mod checksum;
pub mod ipv4_header;
pub mod ipv6_header;
pub mod ip_header;
pub mod pseudo_header;
pub mod udp_header;
pub mod transport_header;
pub mod ipv4_packet;
pub mod ip_packet;
pub mod ip_packet_buffer;
pub mod packetizer;
pub mod dns_cache;
pub mod socks5;
pub mod cli;
pub mod logger;
pub mod tcp_header;
pub mod packet_source;
pub mod tcp_connection;
