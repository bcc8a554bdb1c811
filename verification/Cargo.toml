[package]
name = "jira_cli"
version = "0.1.0"
edition = "2021"
publish = false

[dependencies]
base64 = "0.22"
chrono = "0.4"
clap = { version = "4", features = ["derive", "env"] }
clap_complete = "4"
dirs = "6"
keyring = "*"
mime_guess = "2"
open = "5"
owo-colors = "4"
reqwest = { version = "0.12", default-features = false, features = ["json", "multipart", "rustls-tls"] }
rpassword = "7"
serde = { version = "1", features = ["derive"] }
serde_json = "1"
tempfile = "3"
terminal_size = "0.4"
tokio = { version = "1", features = ["macros", "rt-multi-thread", "sync", "time"] }
toml = "0.9"
