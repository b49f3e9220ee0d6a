[package]
name = "bigtable_rs"
version = "0.1.0"
edition = "2021"
publish = false

[dependencies]
arc-swap = "1"
futures-util = "0.3"
gcp_auth = "*"
googleapis-tonic-google-bigtable-v2 = "*"
hyper-util = { version = "0.1", features = ["tokio"] }
log = "0.4"
prost-types = "0.14"
thiserror = "2"
tokio = { version = "1", features = ["macros", "net", "rt-multi-thread", "sync", "time"] }
tonic = { version = "0.14", features = ["tls-ring"] }
tower = { version = "0.5", features = ["util"] }
