[package]
name = "doh_resolver"
version = "0.1.0"
edition = "2021"
publish = false

[dependencies]
anyhow = "1"
async-trait = "0.1"
base64 = "0.22"
hickory-proto = { version = "0.25", features = ["https-ring", "tokio"] }
hickory-resolver = { version = "0.25", features = ["https-ring"] }
once_cell = "1"
rustls = { version = "0.23", default-features = false, features = ["ring", "std", "tls12"] }
tokio = { version = "1", features = ["net", "rt", "rt-multi-thread", "sync", "time"] }
tracing = "0.1"
url = "2"
webpki-roots = "0.26"

[dev-dependencies]
futures-util = "0.3"
h2 = "0.4"
http = "1"
rcgen = "0.12"
tokio-rustls = { version = "0.26", default-features = false, features = ["ring", "tls12"] }
