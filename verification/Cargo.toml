[package]
name = "common_x"
version = "0.1.0"
edition = "2021"
publish = false

[dependencies]
flume = "=0.11.1"
rand = "=0.8.8"
rand_chacha = "=0.3.1"
blake3 = "=1.8.7"
serde = { version = "=1.0.229", features = ["derive"] }
serde_json = "=1.0.151"
tokio = { version = "=1.53.2", features = ["rt", "rt-multi-thread", "macros", "signal", "fs", "io-util", "time", "sync"] }
tracing = "=0.1.44"
tracing-subscriber = { version = "=0.3.23", features = ["env-filter"] }
tracing-appender = "=0.2.5"
chrono = "=0.4.45"
color-eyre = "=0.6.5"
lettre = { version = "=0.11.23", default-features = false, features = ["smtp-transport", "tokio1", "builder", "hostname", "pool", "tokio1-rustls-tls"] }
axum = "=0.7.9"
axum-server = { version = "=0.7.3", features = ["tls-rustls"] }
tower-http = { version = "=0.6.11", features = ["trace", "timeout"] }
rustls = { version = "=0.23.45", default-features = false, features = ["ring", "std", "logging", "tls12"] }
rustls-pemfile = "=2.2.0"
rustls-webpki = { version = "=0.102.8", default-features = false, features = ["alloc", "std", "ring"] }
rcgen = { version = "=0.13.2", features = ["x509-parser"] }
reqwest = { version = "=0.12.28", default-features = false, features = ["rustls-tls"] }
config = { version = "=0.14.1", default-features = false, features = ["toml", "json", "async"] }
notify = "=6.1.1"
parking_lot = "=0.12.5"
async-trait = "=0.1.92"
ron = "=0.8.1"
toml = "=0.8.23"
