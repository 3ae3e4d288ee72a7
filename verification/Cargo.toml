[package]
name = "teacher_service"
version = "0.1.0"
edition = "2021"
publish = false

[dependencies]
actix-cors = "=0.7.2"
actix-files = "=0.7.0"
actix-rt = "=2.15.0"
actix-web = { version = "=4.15.0", default-features = false, features = ["macros"] }
awc = { version = "=3.8.2", default-features = false }
chrono = { version = "=0.4.45", features = ["serde"] }
dotenv = "=0.15.0"
serde = { version = "=1.0.229", features = ["derive"] }
serde_json = "=1.0.151"
sqlx = { version = "=0.9.0", default-features = false, features = ["mysql", "runtime-tokio", "chrono", "derive"] }
tera = "=2.4.0"
