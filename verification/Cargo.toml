[package]
name = "selfupdate"
version = "0.1.1"
edition = "2021"
publish = false

[dependencies]
regex = "=1.13.1"
reqwest = { version = "=0.12.28", default-features = false, features = ["blocking", "rustls-tls"] }
serde = { version = "=1.0.229", features = ["derive"] }
serde_json = "=1.0.154"
thiserror = "=2.0.21"
nix = { version = "=0.29.0", features = ["signal", "process"] }
clap = { version = "=4.6.7", features = ["string"] }
