[package]
name = "driver_supervisor"
version = "0.1.0"
edition = "2021"
publish = false

[dependencies]
axum = "*"
caps = "=0.5.6"
clap = { version = "*", features = ["derive", "env"] }
color-eyre = "*"
opentelemetry = "=0.23.0"
opentelemetry-jaeger = "=0.22.0"
serde_json = "*"
thirtyfour = "=0.37.5"
thiserror = "*"
tokio = { version = "*", features = ["rt-multi-thread", "macros", "net"] }
tracing = "*"
tracing-error = "*"
tracing-opentelemetry = "=0.24.0"
tracing-subscriber = { version = "*", features = ["env-filter"] }
