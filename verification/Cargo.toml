[package]
name = "trustification_index"
version = "0.1.0"
edition = "2021"
publish = false

[dependencies]
chumsky = "=1.0.0-alpha.4"
clap = { version = "=4.6.7", features = ["derive", "env"] }
cpe = "=0.1.5"
csaf = "=0.5.0"
humantime = "=2.4.0"
log = "=0.4.34"
rand = "=0.8.8"
serde_json = "=1.0.154"
sikula = { version = "=0.3.1", features = ["time"] }
tantivy = { version = "=0.19.2", features = ["zstd-compression"] }
tar = "=0.4.46"
time = "=0.3.55"
zstd = "=0.12.4"
