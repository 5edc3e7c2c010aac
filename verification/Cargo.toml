[package]
name = "file"
version = "0.1.0"
edition = "2021"
publish = false

[dependencies]
mime_guess = "=2.0.5"
url = "=2.5.8"
cloudfront_sign = "=0.4.1"
aws-sdk-s3 = { version = "=1.157.0", default-features = false, features = ["rt-tokio"] }
aws-config = { version = "=1.13.0", default-features = false, features = ["rt-tokio", "behavior-version-latest"] }
axum = "=0.8.9"
utoipa = "=6.0.0"
utoipa-axum = "=0.3.0"
serde = { version = "=1.0.229", features = ["derive"] }
tokio = { version = "=1.54.1", features = ["fs", "rt", "macros"] }

[dev-dependencies]
rsa = "=0.9.10"
