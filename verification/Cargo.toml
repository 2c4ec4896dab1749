[package]
name = "uservice"
version = "0.1.0"
edition = "2021"
publish = false

[dependencies]
atomic = "0.5"
libloading = "0.7"
tokio = { version = "1", features = ["rt", "macros", "signal", "sync", "time"] }
prometheus = { version = "0.13", default-features = false, features = ["process"] }
rand = "0.8"
warp = { version = "0.3", default-features = false }
futures = "0.3"
lazy_static = "1.4"
ffi_helpers = "*"
libc = "0.2"
clap = "3"
env_logger = "0.9"
log = "0.4"
async-trait = "0.1"
