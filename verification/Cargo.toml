[package]
name = "bgp"
version = "0.1.0"
edition = "2021"
publish = false

[dependencies]
bytes = "1"
foundations = { version = "*", default-features = false, features = ["logging"] }
ipnet = "2"
octets = "*"
parking_lot = "0.12"
prefix-trie = "*"
tokio = { version = "1", features = ["io-util", "macros", "net", "rt", "rt-multi-thread", "sync", "time"] }
