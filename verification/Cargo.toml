[package]
name = "corrbus"
version = "0.1.0"
edition = "2021"
publish = false

[dependencies]
uuid = { version = "*", features = ["v4"] }
tokio = { version = "*", features = ["sync", "time", "rt", "macros", "rt-multi-thread"] }
serde = { version = "*", features = ["derive"] }
serde_json = "*"
rust_decimal = "*"
actix-web = "*"
