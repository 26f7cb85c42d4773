[package]
name = "mpdris"
version = "0.1.0"
edition = "2021"
publish = false

[dependencies]
async-std = "=1.13.2"
futures-util = { version = "=0.3.34", features = ["io"] }
zbus = "=5.19.0"
argh = "=0.1.19"
log = "=0.4.34"
simplelog = "=0.12.2"
libc = "=0.2.190"
signal-hook = "=0.4.5"
once_cell = "=1.21.4"
serde = { version = "=1.0.229", features = ["derive"] }
toml = "=1.1.7"
dns-lookup = "=4.0.2"
libloading = "=0.9.0"
