[package]
name = "fuzzer_host"
version = "0.1.0"
edition = "2021"
publish = false

[dependencies]
libafl = { version = "=0.7.1", default-features = false, features = ["std", "derive"] }
async-std = "=1.13.2"
async-trait = "0.1"
clap = "3"
futures = "=0.3.34"
libc = "=0.2.191"
postcard = { version = "1", features = ["alloc"] }
snafu = "=0.7.5"
serde = { version = "=1.0.229", features = ["derive"] }
unsafe-send-sync = "0.1"
