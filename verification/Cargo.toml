[package]
name = "hstack"
version = "0.1.0"
edition = "2021"
publish = false

[dependencies]
serde = { version = "=1.0.229", features = ["derive"] }
serde_json = "=1.0.154"
sha2 = "=0.10.9"
chrono = "=0.4.45"
uuid = { version = "=1.29.0", features = ["v4"] }
rrule = "=0.14.0"
zxcvbn = "=3.1.1"
bcrypt = "=0.19.3"
tokio = { version = "=1.54.1", features = ["sync", "time", "macros", "rt", "net"] }
async-trait = "=0.1.92"
futures = "=0.3.34"
thiserror = "=2.0.21"
tracing = "=0.1.44"
reqwest = { version = "=0.13.5", default-features = false, features = ["json"] }
axum = "*"
sqlx = { version = "*", default-features = false, features = ["sqlite", "runtime-tokio", "chrono"] }
keyring = "*"
