[package]
name = "symfetch"
version = "0.1.0"
edition = "2021"
publish = false

[dependencies]
clap = { version = "=4.6.7", features = ["cargo"] }
image = "=0.24.9"
rascii_art = "=0.4.5"
serde = { version = "=1.0.229", features = ["derive"] }
serde_derive = "=1.0.229"
termimage = "=1.2.2"
toml = "=1.1.8"
