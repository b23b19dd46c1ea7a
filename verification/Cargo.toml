[package]
name = "query_gateway"
version = "0.1.0"
edition = "2021"
publish = false

[dependencies]
hex = "*"
actix-web = { version = "*", default-features = false }
actix-cors = "*"
actix-rt = "*"
futures = "*"
tokio = { version = "*", features = ["rt", "time"] }
web3 = { version = "*", default-features = false }
serde = { version = "*", features = ["derive"] }
log = "*"
