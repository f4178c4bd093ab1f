[package]
name = "ledger_node"
version = "0.1.0"
edition = "2021"
publish = false

[dependencies]
sha2 = "0.10"
bincode = "1"
clap = { version = "4", features = ["derive"] }
fern = "0.6"
log = "0.4"
serde = { version = "1", features = ["derive"] }
