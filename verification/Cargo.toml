[package]
name = "quick_serve"
version = "0.1.0"
edition = "2021"
publish = false

[dependencies]
tokio = { version = "1", features = ["full"] }
hyper = { version = "1", features = ["http1", "server"] }
hyper-util = { version = "0.1", features = ["tokio"] }
http-body-util = "0.1"
bytes = "1"
libunftp = "*"
unftp-sbe-fs = "*"
async-tftp = "*"
dhcp4r = "*"
clap = { version = "4", features = ["derive"] }
ctrlc = "3"
log = "0.4"

[dev-dependencies]
tempfile = "3"
rand = "0.8"
