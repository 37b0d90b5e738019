[package]
name = "p4net"
version = "0.1.0"
edition = "2021"
publish = false

[dependencies]
smoltcp = "0.9"
tokio = { version = "1", features = ["full"] }
futures = "0.3"
async-trait = "0.1"
log = "0.4"
rand = "0.8"
bichannel = "*"
serde = { version = "1", features = ["derive"] }
serde_json = "1"

[dev-dependencies]
