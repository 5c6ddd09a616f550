[package]
name = "wszl"
version = "1.0.0"
edition = "2021"
publish = false

[dependencies]
anyhow = "=1.0.104"
clap = "=4.6.7"
config = { version = "=0.15.27", default-features = false, features = ["yaml"] }
log = "=0.4.34"
log4rs = "=1.4.0"
regex = "=1.13.1"
reqwest = { version = "=0.12.28", features = ["blocking", "json"] }
serde = { version = "=1.0.229", features = ["derive"] }
serde_derive = "=1.0.229"
serde_json = "=1.0.154"
thiserror = "=1.0.69"
zabbix-api = "=0.9.0"
