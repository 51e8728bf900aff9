[package]
name = "xfwl4"
version = "0.1.0"
edition = "2021"
publish = false

[dependencies]
rand = "=0.9.5"
bitflags = "=2.13.2"
thiserror = "=2.0.21"
anyhow = "=1.0.104"
bytes = "=1.12.1"
tracing = "=0.1.44"
libc = "=0.2.191"
indexmap = "=2.14.2"
rustix = { version = "=1.1.6", features = ["process", "pipe", "fs"] }
smithay = { version = "=0.7.0", default-features = false, features = ["wayland_frontend", "desktop"] }
