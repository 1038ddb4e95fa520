[package]
name = "fileferry"
version = "0.2.2-alpha"
edition = "2021"
publish = false

[dependencies]
anyhow = "=1.0.104"
async-trait = "=0.1.92"
aws-config = { version = "=1.13.0", features = ["behavior-version-latest"] }
aws-credential-types = "=1.3.1"
aws-sdk-s3 = "=1.157.0"
aws-smithy-types = "=1.9.1"
axum = "=0.7.9"
libc = "=0.2.191"
serde = { version = "=1.0.229", features = ["derive"] }
serde_json = "=1.0.154"
serde_yaml_ng = "=0.10.0"
sha2 = "0.10"
subtle = "=2.6.1"
tempfile = "=3.27.0"
thiserror = "=1.0.69"
tokio = { version = "=1.54.1", features = ["full"] }
tokio-io-timeout = "=1.2.1"
tower = { version = "=0.4.13", features = ["util"] }
tower-http = { version = "=0.5.2", features = ["limit", "trace", "timeout"] }
tracing = "=0.1.44"
tracing-subscriber = { version = "=0.3.23", features = ["env-filter"] }
