[package]
name = "binance_client"
version = "0.1.0"
edition = "2021"
publish = false

[dependencies]
magic-crypt = "=5.0.1"
ring = "=0.17.14"
data-encoding = "=2.11.1"
querystring = "=1.1.0"
serde = { version = "*", features = ["derive"] }
serde_json = "*"
reqwest = { version = "*", default-features = false, features = ["json", "query"] }
tokio = { version = "*", features = ["macros", "rt-multi-thread"] }
prettytable-rs = "*"
