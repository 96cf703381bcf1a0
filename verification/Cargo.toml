[package]
name = "kbr_api_rust"
version = "0.1.0"
edition = "2021"
publish = false

[dependencies]
jsonwebtoken = "=9.3.1"
serde_json = { version = "=1.0.154", features = ["raw_value"] }
chrono = "=0.4.45"
hmac = "=0.12.1"
sha2 = "=0.10.9"
hex = "=0.4.3"
constant_time_eq = "=0.3.1"
uuid = { version = "=1.29.0", features = ["v4"] }
rand = "=0.8.8"
bcrypt = "=0.15.1"
serde = { version = "=1.0.229", features = ["derive"] }
thiserror = "=1.0.69"
actix-web = "=4.18.1"
actix-cors = "=0.7.2"
tokio = { version = "=1.54.1", features = ["macros", "rt-multi-thread", "process", "time"] }
dotenvy = "=0.15.7"
tracing = "=0.1.44"
tracing-subscriber = { version = "=0.3.23", features = ["env-filter"] }
sqlx = { version = "=0.8.6", default-features = false, features = ["postgres", "runtime-tokio", "migrate", "chrono", "uuid"] }
