[package]
name = "ochami-rs"
version = "0.1.0"
edition = "2021"
publish = false

[dependencies]
regex = "1"
hostlist-parser = "*"
uuid = "1"
serde = { version = "1", features = ["derive"] }
serde_json = "1"
reqwest = { version = "0.12", default-features = false, features = ["json", "socks", "rustls-tls"] }
tokio = { version = "1", features = ["rt-multi-thread", "macros", "sync"] }
log = "0.4"
clap = "4"
thiserror = "1"
config = "*"
directories = "*"
