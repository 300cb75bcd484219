[package]
name = "colang"
version = "0.1.0"
edition = "2021"
publish = false

[dependencies]
argon2 = "=0.5.3"
base64 = "=0.22.1"
chrono = { version = "=0.4.45", features = ["serde"] }
dotenvy = "=0.15.7"
hex = "=0.4.3"
jsonwebtoken = "=9.3.1"
rand = "=0.8.8"
serde = { version = "=1.0.229", features = ["derive"] }
serde_json = "=1.0.154"
sha2 = "=0.10.9"
uuid = { version = "=1.29.0", features = ["v4", "serde"] }
tokio = { version = "=1.54.1", features = ["rt-multi-thread", "macros", "time"] }
reqwest = { version = "=0.12.28", default-features = false, features = ["json", "rustls-tls"] }
futures-util = "=0.3.34"
diesel = { version = "=2.3.14", features = ["postgres", "r2d2", "chrono", "serde_json"] }
salvo = { version = "=1.1.0", features = ["oapi", "cors"] }
tracing = "=0.1.44"
tracing-subscriber = { version = "=0.3.23", features = ["env-filter"] }
handlebars = "=6.4.4"
ulid = "=1.2.1"
oauth2 = "=5.0.0"
thiserror = "=2.0.21"
url = "=2.5.8"
bigdecimal = "=0.4.11"
outfox-doubao = { version = "=0.7.0", features = ["tts"] }
