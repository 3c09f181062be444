[package]
name = "pubmed_pipeline"
version = "0.1.0"
edition = "2021"
publish = false

[dependencies]
roxmltree = "*"
async-compression = { version = "*", features = ["tokio", "gzip"] }
clap = { version = "4", features = ["derive"] }
file_integrity = "*"
futures-util = "0.3"
indicatif = "*"
reqwest = "*"
serde = { version = "1", features = ["derive"] }
serde_json = "1"
tempdir = "0.3"
tokio = { version = "1", features = ["full"] }
