[package]
name = "tokio_libevent"
version = "0.1.0"
edition = "2021"
publish = false

[dependencies]
bytes = "1"
futures = "0.3"
futures-util = "0.3"
libc = "0.2"
libevent-sys = "*"
mio = "0.6"
socket2 = { version = "0.4", features = ["all"] }
tokio = { version = "1", features = ["full"] }
