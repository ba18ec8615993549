[package]
name = "market_sz"
version = "0.1.0"
edition = "2021"
publish = false

[dependencies]
byteorder = "=1.5.0"
encoding = "=0.2.33"
chrono = "=0.4.45"
log = "=0.3.9"
serde = "=1.0.229"
serde_derive = "=1.0.229"
serde_json = "=1.0.154"
xml-rs = "=0.8.29"
nanomsg = "=0.7.2"
leveldb = "=0.8.6"
db-key = "=0.0.5"
tiberius = { version = "=0.2.3", default-features = false }
tokio-core = "=0.1.18"
futures = "=0.1.31"
