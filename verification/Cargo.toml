[package]
name = "tokio-listener"
version = "0.5.1"
edition = "2021"
publish = false

[dependencies]
socket2 = { version = "0.5", features = ["all"] }
tokio = { version = "1", features = ["net", "io-std", "io-util", "time", "sync", "macros", "rt"] }
futures-core = "0.3"
futures-util = "0.3"
tracing = "0.1"
nix = { version = "0.29", default-features = false, features = ["user", "fs"] }
clap = { version = "4", features = ["derive"] }
serde = { version = "1", features = ["derive"] }
serde_with = "3"
pin-project = "1"
tokio-util = { version = "0.7", features = ["net"] }
axum = "0.7"
hyper = { version = "1", features = ["server", "http1", "http2"] }
hyper-util = { version = "0.1", features = ["server-auto", "tokio", "http1", "http2"] }
tower = { version = "0.4", features = ["util"] }
tower-service = "0.3"
tonic = "0.12"
tokio-vsock = "*"
