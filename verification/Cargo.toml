[package]
name = "remote_signer"
version = "0.2.0"
edition = "2021"
publish = false

[dependencies]
reqwest = { version = "*", default-features = false, features = ["json", "blocking"] }
serde = { version = "*" }
serde_json = { version = "*" }
tokio = { version = "*", features = ["rt", "time"] }
tree_hash = { version = "*" }
