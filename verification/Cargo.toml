[package]
name = "aths_server"
version = "0.1.0"
edition = "2021"
publish = false

[dependencies]
pwhash = "1"
uuid = { version = "1", features = ["v4", "serde"] }
serde = { version = "1", features = ["derive"] }
serde_json = "1"
axum = { version = "0.7", features = ["ws", "multipart", "macros"] }
axum-extra = { version = "0.9", features = ["cookie", "typed-header"] }
tokio = { version = "1", features = ["full"] }
sqlx = { version = "0.7", default-features = false, features = ["runtime-tokio", "postgres", "uuid", "macros", "migrate"] }
askama = "0.12"
sysinfo = "0.30"
moka = { version = "0.12", features = ["future"] }
tower-http = { version = "0.5", features = ["cors"] }
tracing = "0.1"
tracing-subscriber = "0.3"
dotenvy = "0.15"
futures-util = "0.3"
axum-login = "0.15"
