[package]
name = "wasmcloud_hub"
version = "0.1.0"
edition = "2021"
publish = false

[dependencies]
anyhow = "=1.0.104"
async-nats = { version = "=0.37.0", features = ["service"] }
async-trait = "=0.1.92"
bytes = "=1.12.1"
clap = { version = "=4.6.7", features = ["derive"] }
futures = "=0.3.34"
nats-jwt-rs = "=0.1.0"
nkeys = { version = "=0.4.5", features = ["xkeys"] }
oci-distribution = { version = "=0.11.0", default-features = false, features = ["rustls-tls"] }
prost = "=0.13.5"
prost-types = "=0.13.5"
secrecy = { version = "=0.8.0", features = ["serde"] }
serde = { version = "=1.0.229", features = ["derive"] }
thiserror = "=1.0.69"
tokio = { version = "=1.54.1", features = ["full"] }
tokio-stream = "=0.1.19"
tokio-util = "=0.7.20"
toml = "=0.8.23"
tracing = "=0.1.44"
tracing-subscriber = { version = "=0.3.23", features = ["env-filter"] }
ulid = "=1.1.4"
uuid = { version = "=1.15.1", features = ["v4"] }
wasi = "=0.13.3"
wasmtime = { version = "=25.0.3", default-features = false, features = ["async", "component-model", "cranelift", "pooling-allocator", "runtime"] }
wasmtime-wasi = { version = "=25.0.3", default-features = false }
wit-bindgen = "=0.33.0"
wit-bindgen-wrpc = "=0.8.0"
wrpc-pack = "=0.3.0"
wrpc-transport-nats = "=0.25.0"
