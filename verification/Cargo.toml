[package]
name = "webservice"
version = "0.1.0"
edition = "2021"
publish = false

[dependencies]
actix-web = "*"
actix-rt = "*"
actix-cors = "*"
dotenv = "*"
serde = { version = "*", features = ["derive"] }
serde_json = "*"
chrono = { version = "*", features = ["serde"] }
sqlx = { version = "*", default-features = false, features = ["postgres", "runtime-tokio", "chrono"] }
