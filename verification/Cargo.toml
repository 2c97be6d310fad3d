[package]
name = "zero2prod"
version = "0.1.0"
edition = "2021"
publish = false

[dependencies]
rand = "0.8"
uuid = { version = "1", features = ["v4"] }
time = "0.3"
serde = { version = "1", features = ["derive"] }
axum = "0.7"
tokio = { version = "1", features = ["macros", "rt-multi-thread", "net"] }
sqlx = { version = "0.8", default-features = false, features = ["runtime-tokio", "postgres", "uuid", "time"] }
reqwest = { version = "0.12", default-features = false, features = ["json"] }
secrecy = "0.10"
tower = "0.5"
tower-http = { version = "0.6", features = ["request-id", "trace"] }
tracing = "0.1"
