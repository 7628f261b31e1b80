[package]
name = "friendbank"
version = "0.1.0"
edition = "2021"
publish = false

[dependencies]
bcrypt = "*"
actix-web = "*"
actix-web-httpauth = "*"
jsonwebtoken = "*"
serde = { version = "*", features = ["derive"] }
serde_json = "*"
chrono = "*"
rust_decimal = "*"
tokio = { version = "*", features = ["macros", "rt-multi-thread"] }
dotenv = "*"
