[package]
name = "mdns_responder"
version = "0.1.0"
edition = "2021"
publish = false

[dependencies]
get_if_addrs = "0.5"
log = "0.4"
dns-parser = "0.8"
tokio = { version = "1", features = ["net", "sync", "rt"] }
