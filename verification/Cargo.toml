[package]
name = "rustfmt_core"
version = "1.4.2"
edition = "2021"
publish = false

[dependencies]
toml = "0.5"
serde = { version = "1", features = ["derive"] }
dirs = "2"
