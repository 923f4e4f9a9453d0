[package]
name = "rouchdb"
version = "0.1.0"
edition = "2021"
publish = false

[dependencies]
clap = { version = "=3.2.25", features = ["derive"] }
md5 = "=0.7.0"
reqwest = { version = "=0.11.27", features = ["json"] }
serde = { version = "=1.0.229", features = ["derive"] }
serde_json = { version = "=1.0.154", features = ["raw_value"] }
tokio = { version = "=1.54.1", features = ["macros", "rt-multi-thread"] }
url = "=2.5.8"
uuid = { version = "=1.29.0", features = ["v4", "serde"] }
