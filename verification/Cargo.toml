[package]
name = "usami"
version = "0.1.0"
edition = "2021"
publish = false

[dependencies]
ash = "0.38"
zstd = "0.13"
spirv-reflect = "0.2"
argh = "0.1"
reqwest = { version = "0.11", default-features = false, features = ["multipart"] }
tokio = { version = "1", features = ["macros", "rt-multi-thread"] }
axum = "0.6"
axum_typed_multipart = "0.10"
hyper = "0.14"
tower-http = { version = "0.4", features = ["limit", "trace"] }
tracing = "0.1"
tracing-subscriber = "0.3"
serde = { version = "1", features = ["derive"] }
serde_json = "1"
colorgrad = "0.6"
image = { version = "0.24", default-features = false }
