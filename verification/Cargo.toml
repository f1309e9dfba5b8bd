[package]
name = "cargo_cross"
version = "0.1.0"
edition = "2021"
publish = false

[dependencies]
regex = "1"
globset = "0.4"
path-slash = "0.2"
which = "*"
colored = "*"
clap = { version = "4", features = ["derive", "env"] }
reqwest = { version = "0.12", default-features = false, features = ["stream"] }
tokio = { version = "1", features = ["full"] }
tokio-tar = "0.3"
async-compression = { version = "0.4", features = ["tokio", "gzip"] }
zip = { version = "2", default-features = false, features = ["deflate"] }
indicatif = "0.17"
futures-util = "0.3"
serde_json = "1"
thiserror = "2"
regex-lite = "0.1"
