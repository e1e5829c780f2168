[package]
name = "evidence_store"
version = "0.1.0"
edition = "2021"
publish = false

[dependencies]
hmac = "=0.7.1"
sha2 = "=0.8.2"
hex = "=0.4.3"
serde_json = "=1.0.154"
cita-tool = "=0.22.0"
actix-web = { version = "1.0", default-features = false }
diesel = { version = "=1.4.8", features = ["postgres", "r2d2"] }
futures = "=0.1.31"
dotenv = "=0.14.1"
env_logger = { version = "0.6", default-features = false }
time = "=0.1.43"
chrono = "=0.4.19"
lazy_static = "=1.5.1"
serde = { version = "=1.0.229", features = ["derive"] }
serde_derive = "=1.0.229"
