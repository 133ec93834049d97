[package]
name = "cosmos_balance_watcher"
version = "0.1.0"
edition = "2021"
publish = false

[dependencies]
anyhow = "*"
cosmos-sdk-proto = { version = "=0.27.0", features = ["cosmwasm"] }
cw20 = "=2.0.0"
env_logger = "*"
humantime-serde = "*"
log = "*"
prometheus = "*"
serde = "*"
serde_derive = "*"
serde_json = "=1.0.151"
structopt = "*"
tokio = { version = "*", features = ["full"] }
toml = "*"
tonic = { version = "=0.13.1", features = ["tls-native-roots"] }
warp = { version = "=0.4.3", features = ["server"] }
web3 = { version = "*", default-features = false, features = ["http"] }
