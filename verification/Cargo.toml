[package]
name = "did_cheqd"
version = "0.1.0"
edition = "2021"
publish = false

[dependencies]
chrono = { version = "0.4", default-features = false, features = ["std", "clock"] }
prost = "0.13"
prost-types = "0.13"
serde_json = "1"
ssi-dids-core = "*"
thiserror = "2"
tokio = { version = "1", features = ["sync"] }
tonic = { version = "0.12", features = ["tls", "tls-webpki-roots"] }
url = "2"
