[package]
name = "whisper"
version = "0.1.0"
edition = "2021"
publish = false

[dependencies]
async-trait = "=0.1.92"
bytes = "=1.12.1"
clap = { version = "=4.6.7", features = ["derive", "cargo"] }
fastwebsockets = { version = "=0.8.1", features = ["upgrade", "unstable-split"] }
futures-util = { version = "=0.3.34", features = ["sink"] }
http-body-util = "=0.1.5"
hyper = { version = "=1.12.0", features = ["client", "http1"] }
hyper-util = { version = "=0.1.21", features = ["tokio"] }
ipstack = "=1.0.1"
tokio = { version = "=1.54.1", features = ["full"] }
tokio-native-tls = "=0.3.1"
tokio-util = { version = "=0.7.20", features = ["codec", "compat"] }
tun2 = { version = "=4.0.0", features = ["async"] }
wisp-mux = { version = "=5.1.0", features = ["fastwebsockets"] }
