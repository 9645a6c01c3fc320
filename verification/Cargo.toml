[package]
name = "ur_redis_driver"
version = "0.1.0"
edition = "2021"
publish = false

[dependencies]
futures = "0.3"
k = "*"
local-ip-address = "*"
log = "0.4"
nanoid = "0.4"
ordered-float = "*"
r2r = "*"
roxmltree = "*"
serde = { version = "1", features = ["derive"] }
serde_json = "1"
tera = "1"
tokio = { version = "1", features = ["full"] }
tokio-util = { version = "0.7", features = ["codec", "rt"] }
urdf-rs = "*"
