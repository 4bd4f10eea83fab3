[package]
name = "gnirehtet"
version = "0.1.0"
edition = "2021"
publish = false

[dependencies]
byteorder = "1"
rand = "0.8"
log = "0.4"
clap = { version = "4", features = ["derive"] }
jiff = "0.2"
socket2 = "0.5"
libc = "0.2"
tokio = { version = "1", features = ["net", "rt", "time", "sync", "macros"] }
