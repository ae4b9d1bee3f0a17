[package]
name = "zenoh_dissector"
version = "0.1.0"
edition = "2021"
publish = false

[dependencies]
zenoh-buffers = "*"
zenoh-protocol = "*"
zenoh-transport = { version = "*", default-features = false, features = ["transport_compression"] }
