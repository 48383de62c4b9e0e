[package]
name = "openot_persistence"
version = "0.1.0"
edition = "2021"
publish = false

[dependencies]
sha2 = "0.10"
time = "0.3"
urlencoding = "2"
serde_json = "1"
rusqlite = { version = "0.32", features = ["bundled"] }
ureq = "3"
postgres = "0.19"
postgres-native-tls = "0.5"
native-tls = "0.2"
tiberius = { version = "0.12", default-features = false, features = ["tds73", "rustls"] }
tokio = { version = "1", features = ["rt", "net"] }
tokio-util = { version = "0.7", features = ["compat"] }
rustls = "0.23"
mysql = { version = "25", default-features = false, features = ["minimal-rust", "rustls-tls"] }
