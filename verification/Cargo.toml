[package]
name = "auth_core"
version = "0.1.0"
edition = "2021"
publish = false

[dependencies]
argon2 = "0.5"
chrono = "0.4"
dotenv = "0.15"
jsonwebtoken = "9"
rand_core = { version = "0.6", features = ["getrandom"] }
serde_json = "1"
uuid = { version = "1", features = ["v4"] }
