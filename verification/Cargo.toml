[package]
name = "runstrate"
version = "0.1.0"
edition = "2021"
publish = false

[dependencies]
hex = "0.4"
sp-core = "*"
sp-runtime = "*"
sp-state-machine = "*"
sp-io = "*"
sp-storage = "*"
parity-scale-codec = { version = "3", features = ["derive"] }
rand = "0.8"
serde = { version = "1", features = ["derive"] }
serde_json = "1"
clap = { version = "4", default-features = false, features = ["std", "derive", "help", "usage", "error-context"] }
anyhow = "1"
futures = "0.3"
tokio = { version = "1", features = ["rt-multi-thread", "macros", "time", "sync"] }
jsonrpsee = { version = "0.16", features = ["server", "macros"] }
