[package]
name = "ttsearch"
version = "0.1.0"
edition = "2021"
publish = false

[dependencies]
chrono = "=0.4.45"
csv = "=1.4.0"
zip = "=8.6.0"
tantivy = "=0.26.2"
lindera = "=5.3.0"
lindera-tantivy = "=5.0.1"
clap = { version = "=4.6.7", features = ["derive"] }
colorchoice-clap = "=1.0.8"
env_logger = "=0.11.11"
log = "=0.4.34"
homedir = "=0.3.6"

[dev-dependencies]
serde_json = "=1.0.151"
