[package]
name = "wordcut_server"
version = "0.1.0"
edition = "2021"
publish = false

[dependencies]
serde_json = "=1.0.151"
wordcut-engine = "=1.2.2"
prefixtree = "=0.1.3"
config = "=0.15.27"
