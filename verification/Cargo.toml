[package]
name = "ledger_gateway"
version = "0.1.0"
edition = "2021"
publish = false

[dependencies]
actix-web = "4"
actix-server = "2"
color-eyre = "0.6"
derive_more = "0.99"
serde = { version = "1", features = ["derive"] }
