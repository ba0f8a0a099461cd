[package]
name = "slack_status"
version = "0.1.0"
edition = "2021"
publish = false

[dependencies]
anyhow = "=1.0.104"
config = "=0.15.27"
dirs = "=7.0.0"
docopt = "=1.1.1"
get-cookie = "=0.2.0"
regex = "=1.13.1"
reqwest = { version = "=0.13.5", features = ["blocking", "cookies"] }
serde = { version = "=1.0.229", features = ["derive"] }
serde_json = "=1.0.154"
slack_api = { version = "=0.23.1", default-features = false, features = ["sync"] }
url = "=2.5.8"
