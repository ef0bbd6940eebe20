[package]
name = "cmd_harness"
version = "0.1.0"
edition = "2021"
publish = false

[dependencies]
error-chain = { version = "0.12", default-features = false }
log = "0.4"
log4rs = "1"
reqwest = { version = "0.12", default-features = false, features = ["blocking"] }
rouille = { version = "3", default-features = false }
serde_json = "1"
structopt = "0.3"
