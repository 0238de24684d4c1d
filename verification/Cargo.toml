[package]
name = "zingo-http"
version = "0.1.0"
edition = "2021"
publish = false

[dependencies]
anyhow = "*"
axum = "*"
base64 = "*"
bip0039 = "*"
dotenv = "*"
hex = "*"
pepper-sync = "*"
serde = { version = "1", features = ["derive"] }
tokio = { version = "1", features = ["full"] }
tower-http = { version = "*", features = ["cors"] }
tracing = "*"
tracing-subscriber = { version = "*", features = ["env-filter"] }
zcash_address = "*"
zcash_primitives = "*"
zcash_protocol = "*"
zingolib = "*"
zip32 = "*"
