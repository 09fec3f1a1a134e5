[package]
name = "shared"
version = "0.1.0"
edition = "2021"
publish = false

[dependencies]
bincode = "1"
chrono = { version = "0.4", features = ["serde"] }
comrak = { version = "*", default-features = false }
crux_core = "*"
crux_http = "*"
crux_kv = "*"
jiff = "*"
rand = "0.9"
serde = { version = "1", features = ["derive"] }
serde_json = "1"
serde_qs = "*"
toml = "*"
url = "2"
url-macro = "*"
