[package]
name = "relay"
version = "0.1.0"
edition = "2021"
publish = false

[dependencies]
actix = "0.13"
actix-web = "4"
actix-web-actors = "4"
anyhow = "1"
cassandra-cpp = "*"
chrono = { version = "0.4", default-features = false, features = ["clock"] }
dotenv = "0.15"
r2d2 = "0.8"
redis = "*"
serde_json = "1"
