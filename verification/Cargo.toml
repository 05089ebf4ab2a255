[package]
name = "forked_db"
version = "0.1.0"
edition = "2021"
publish = false

[dependencies]
ethabi = "=18.0.0"
revm = { version = "=43.0.3", features = ["dev"] }
anyhow = "=1.0.104"
bigdecimal = "=0.4.11"
rand = "=0.8.8"
serde_json = "=1.0.151"
tiny-keccak = { version = "=2.0.2", features = ["keccak"] }
