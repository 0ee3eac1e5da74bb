[package]
name = "waylock"
version = "0.3.3"
edition = "2021"
publish = false

[dependencies]
clap = "2.33"
humantime = "2"
log = "0.4"
pam = "0.7"
serde = { version = "1.0", features = ["derive"] }
smithay-client-toolkit = "0.15"
toml = "0.5"
users = "0.10"
