[package]
name = "pxe_proxy"
version = "0.1.0"
edition = "2021"
publish = false

[dependencies]
dhcproto = "=0.14.0"
anyhow = "=1.0.104"
log = "=0.4.34"
fern = "=0.7.1"
tokio = { version = "=1.54.1", features = ["net", "time"] }
actix-web = { version = "=4.18.1", default-features = false, features = ["macros"] }
actix-files = "=0.7.2"
actix-rt = "=2.15.0"
async-tftp = "=0.4.2"
