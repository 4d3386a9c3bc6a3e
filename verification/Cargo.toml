[package]
name = "datapack_verifier"
version = "0.1.0"
edition = "2021"
publish = false

[dependencies]
codespan-reporting = "0.11"
notify = "4"
serde = { version = "1", features = ["derive"] }
serde_json = "1"
structopt = "0.3"
