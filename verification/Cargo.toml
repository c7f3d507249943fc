[package]
name = "onetimer"
version = "0.1.0"
edition = "2021"
publish = false

[dependencies]
rand = "=0.8.8"
serde = { version = "=1.0.229", features = ["derive"] }
serde_derive = "=1.0.229"
serde_json = "=1.0.154"
log = "=0.4.34"
simplelog = "=0.12.2"
time = { version = "=0.3.55", features = ["formatting", "local-offset", "macros"] }
clap = { version = "=4.6.7", features = ["derive"] }
threadpool = "=1.8.1"
tiny_http = "=0.12.0"
sqlite = "=0.37.4"
mysql = "=28.0.4"
r2d2 = "=0.8.10"
r2d2_postgres = "=0.18.2"
config = { version = "=0.15.27", default-features = false, features = ["toml", "json"] }
