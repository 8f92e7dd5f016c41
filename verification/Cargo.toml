[package]
name = "lyserver"
version = "0.1.0"
edition = "2021"
publish = false

[dependencies]
actix-web = { version = "4", default-features = false }
anyhow = "1"
async-trait = "0.1"
bytes = "1"
clap = { version = "4", features = ["derive"] }
ctrlc = "3"
env_logger = { version = "0.11", default-features = false }
futures = "0.3"
futures-util = "0.3"
log = "0.4"
path-tree = "0.8"
serde = { version = "1", features = ["derive"] }
serde_cbor = "0.11"
serde_json = "1"
sqlx = { version = "0.8", default-features = false, features = ["sqlite", "runtime-tokio"] }
sysinfo = "0.37"
tokio = { version = "1", features = ["full"] }
tokio-util = "0.7"
toml = "0.9"
wasmtime = { version = "36", default-features = false, features = ["async", "cranelift", "runtime", "std"] }
wasmtime-wasi = "36"
