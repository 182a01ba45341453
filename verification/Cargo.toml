[package]
name = "stackdriver_metrics"
version = "0.1.0"
edition = "2021"
publish = false

[dependencies]
chrono = "0.4"
futures = "0.3"
gouth = "*"
http = "0.2"
prost = "0.9"
prost-types = "0.9"
thiserror = "1"
tokio = { version = "1", features = ["time", "rt", "macros"] }
tonic = { version = "0.6", features = ["tls"] }
tracing = "0.1"
