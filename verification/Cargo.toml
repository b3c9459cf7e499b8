[package]
name = "mkcert_rs"
version = "0.1.0"
edition = "2021"
publish = false

[dependencies]
rcgen = { version = "=0.14.10", features = ["x509-parser"] }
sha1 = "=0.10.7"
pem = "=4.0.0"
x509-parser = { version = "=0.18.1", features = ["verify"] }
clap = { version = "=4.6.7", features = ["derive"] }
dirs = "=7.0.0"
dotenvy = "=0.15.7"
serde = { version = "=1.0.229", features = ["derive"] }
serde_json = "=1.0.154"
thiserror = "=2.0.21"
