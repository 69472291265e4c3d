[package]
name = "libaflmm"
version = "0.1.0"
edition = "2021"
publish = false

[dependencies]
hashbrown = "=0.17.1"
serde = { version = "=1.0.229", features = ["derive"] }
serde_json = "=1.0.154"
postcard = { version = "=1.1.3", features = ["alloc"] }
nix = { version = "0.30", features = ["signal", "process", "fs", "poll", "resource"] }
libc = "0.2"
