[package]
name = "race_bets"
version = "0.1.0"
edition = "2021"
publish = false

[dependencies]
base64 = "0.13"
chrono = { version = "0.4", features = ["serde"] }
diesel = { version = "1.4", features = ["sqlite", "r2d2", "chrono"] }
diesel_derives = "1.4"
tokio-diesel = "0.3"
once_cell = "1"
dotenv = "0.15"
serde = { version = "1", features = ["derive"] }
serde_json = "1"
actix-web = { version = "3", features = ["rustls"] }
actix-web-codegen = "0.4"
actix-rt = "1"
http = "0.2"
rustls = "0.18"
tokio = { version = "0.2", features = ["fs"] }
