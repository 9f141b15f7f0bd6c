[package]
name = "cloudapps"
version = "0.1.0"
edition = "2021"
publish = false

[dependencies]
chrono = "0.4"
clap = { version = "4", features = ["derive", "env"] }
dirs = "5"
gag = "1"
keyring = "3"
libc = "0.2"
reqwest = { version = "0.12", features = ["json"] }
rpassword = "7"
security-framework = "3"
serde = { version = "1", features = ["derive"] }
serde_json = "1"
tempfile = "3"
thiserror = "2"
tokio = { version = "1", features = ["full"] }
toml = "0.8"
uuid = { version = "1", features = ["v4"] }
zeroize = "1"
