[package]
name = "sandbench"
version = "0.1.0"
edition = "2021"
publish = false

[dependencies]
anyhow = "*"
ascii = "*"
flexi_logger = "*"
http-body-util = "*"
hyper = { version = "*", features = ["http1", "server"] }
hyper-util = { version = "*", features = ["tokio"] }
hyperlight-common = "*"
hyperlight-host = "*"
log = "*"
serde = { version = "*", features = ["derive"] }
serde_json = "*"
tiny_http = "*"
tokio = { version = "*", features = ["macros", "rt-multi-thread", "net", "io-util", "time", "sync", "signal"] }
uuid = { version = "*", features = ["v4"] }
