[package]
name = "voidns"
version = "0.1.0"
edition = "2021"
publish = false

[dependencies]
rustls-pemfile = "=2.2.0"
tokio = { version = "=1.54.1", features = ["full"] }
interprocess = { version = "=2.4.7", features = ["tokio"] }
serde = { version = "=1.0.229", features = ["derive"] }
serde_json = "=1.0.154"
anyhow = "=1.0.104"
tracing = "=0.1.44"
tracing-subscriber = { version = "=0.3.23", features = ["env-filter"] }
hickory-server = { version = "=0.26.3", features = ["resolver", "https-ring"] }
rustls = { version = "=0.23.46", default-features = false, features = ["ring", "std", "logging", "tls12"] }
webpki-roots = "=1.0.10"
zbus = "=6.2.1"
nix = { version = "=0.31.3", features = ["net"] }
sd-notify = "=0.5.0"
async-trait = "=0.1.92"
