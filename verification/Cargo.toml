[package]
name = "ynab_cli"
version = "0.1.0"
edition = "2021"
publish = false

[dependencies]
chrono = "=0.4.45"
clap = { version = "=4.6.7", features = ["derive"] }
comfy-table = "=7.2.2"
directories = "=6.0.0"
hex = "=0.4.3"
keyring = { version = "=3.6.3", features = ["apple-native", "windows-native", "sync-secret-service", "crypto-rust", "vendored"] }
oauth2 = "=5.0.0"
rand = "=0.8.8"
reqwest = { version = "=0.12.28", default-features = false, features = ["json", "rustls-tls"] }
rmcp = { version = "=3.8.0", features = ["server", "transport-io"] }
rpassword = "=7.5.4"
rusqlite = { version = "=0.32.1", features = ["bundled-sqlcipher-vendored-openssl"] }
secrecy = "=0.10.3"
serde = { version = "=1.0.229", features = ["derive"] }
serde_json = "=1.0.154"
tokio = { version = "=1.54.1", features = ["full"] }
toml = "=0.8.23"
webbrowser = "=1.2.6"
zeroize = "=1.9.1"
