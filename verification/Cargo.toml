[package]
name = "leo_prove"
version = "0.1.0"
edition = "2021"
publish = false

[dependencies]
clap = "=2.34.0"
leo-input = "=1.0.8"
log = "=0.4.34"
rand = "=0.7.3"
serde = { version = "1.0", features = ["derive"] }
toml = "0.5"
