[package]
name = "helm_wrapper_rs"
version = "0.1.0"
edition = "2021"
publish = false

[dependencies]
log = "0.4"
non-blank-string-rs = "*"
serde = { version = "1", features = ["derive"] }
serde_json = "1"
thiserror = "*"
tokio = { version = "1", default-features = false, features = ["process", "rt"] }
