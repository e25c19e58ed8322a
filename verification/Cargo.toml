[package]
name = "modbus_gateway"
version = "0.1.0"
edition = "2021"
publish = false

[dependencies]
actix-web = "=4.18.1"
config = { version = "=0.14.1", default-features = false, features = ["toml"] }
futures-util = "=0.3.34"
opentelemetry = "=0.27.1"
opentelemetry-appender-tracing = "=0.27.0"
opentelemetry-otlp = { version = "=0.27.0", features = ["grpc-tonic", "logs", "metrics", "trace"] }
opentelemetry-semantic-conventions = "=0.27.0"
opentelemetry_sdk = { version = "=0.27.1", features = ["logs", "metrics", "rt-tokio-current-thread", "trace"] }
salvo = { version = "=1.0.1", default-features = false, features = ["affix-state", "http1", "server", "server-handle"] }
serde = { version = "=1.0.229", features = ["derive"] }
tokio = { version = "=1.54.1", features = ["full"] }
tokio-modbus = { version = "=0.17.0", default-features = false, features = ["tcp"] }
tracing = "=0.1.44"
tracing-actix-web = "=0.7.25"
tracing-appender = "=0.2.5"
tracing-bunyan-formatter = "=0.3.11"
tracing-opentelemetry = "=0.28.0"
tracing-subscriber = { version = "=0.3.23", features = ["env-filter"] }
