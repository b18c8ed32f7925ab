[package]
name = "asset_sync"
version = "0.1.0"
edition = "2021"
publish = false

[dependencies]
base64 = "*"
md5 = "*"
sha1_smol = "*"
rayon = "*"
serde = { version = "*", features = ["derive"] }
url = { version = "*", features = ["serde"] }
clap = { version = "*", features = ["derive"] }
reqwest = { version = "*", default-features = false, features = ["blocking", "json", "rustls-tls"] }
