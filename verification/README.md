# gnirehtet (verified relay core)

The packet-level core of a reverse-tethering relay for Android, written in
Verus: every function in `src/` carries a contract that Verus proves.

## Layout

- `src/` — the verified library:
  - byte handling: `byte_order` (big-endian reads and writes), `checksum`
    (the Internet checksum), `byte_buffer`, `stream_buffer` (circular buffer),
    `binary` (hex dumps), `text` (string helpers);
  - headers and packets: `ipv4_header`, `ipv6_header`, `ip_header`,
    `tcp_header`, `udp_header`, `transport_header`, `pseudo_header`,
    `ipv4_packet`, `ip_packet`, `ip_packet_buffer` (framing of the device's
    byte stream), `packetizer` (packets built for the device);
  - the relay's decisions: `tcp_connection` (the synthetic TCP state
    machine), `packet_source`, `dns_cache`, `socks5` (CONNECT framing);
  - the program's decisions: `cli`, `logger`, `execution_error`.
- `tests/` — tests run against the compiled library.
- `app/` — the `gnirehtet` program: argument parsing with clap, the logger
  behind the `log` facade, and the socket I/O of TCP connections and of the
  DNS forwarder, each delegating its decisions to the library.

## Laws proved

Among others: header edits keep the parsed fields and the raw bytes in step;
swapping source and destination twice restores a header; a header or segment
that carries the checksum written by the library sums to `0xffff`; packets
received one after another are framed one after another; every operation of a
TCP connection moves its state forward along the state machine and never past
the device's window; a DNS response is found again until it expires, and
storing one name leaves the others untouched.
