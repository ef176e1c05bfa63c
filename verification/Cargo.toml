[package]
name = "giantbomb_rs"
version = "0.1.0"
edition = "2021"
publish = false

[dependencies]
actix-web = "4"
dotenv = "0.15"
opentelemetry = "0.17"
rand = "0.8"
reqwest = { version = "0.11", features = ["json"] }
reqwest-middleware = "0.1"
reqwest-tracing = "0.3"
serde = { version = "1", features = ["derive"] }
tracing = "0.1"
tracing-actix-web = "0.7"
tracing-bunyan-formatter = "0.3"
tracing-log = "0.1"
tracing-subscriber = { version = "0.3", features = ["registry", "env-filter"] }
