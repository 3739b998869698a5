[package]
name = "fetcher"
version = "0.1.0"
edition = "2021"
publish = false

[dependencies]
reqwest = { version = "=0.11.27", features = ["gzip", "json"] }
serde = { version = "=1.0.229", features = ["derive"] }
tui = { version = "=0.16.0", default-features = false, features = ["crossterm"] }
crossterm = "=0.20.0"
libmpv = "=2.0.1"

[dev-dependencies]
serde_json = "=1.0.154"
