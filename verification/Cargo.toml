[package]
name = "varnish"
version = "0.1.0"
edition = "2021"
publish = false

[dependencies]
serde_json = "1"
sha2 = "0.10"
syn = { version = "2", features = ["full", "visit-mut", "extra-traits"] }
quote = "1"
proc-macro2 = "1"
darling = "0.20"
serde = { version = "1", features = ["derive"] }
pkg-config = "0.3"
