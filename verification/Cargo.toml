[package]
name = "holenews"
version = "0.1.0"
edition = "2021"
publish = false

[dependencies]
actix-files = "=0.7.2"
actix-web = { version = "=4.18.1", default-features = false, features = ["macros"] }
chrono = "=0.4.45"
dotenv = "=0.15.0"
log = "=0.4.34"
serde = { version = "=1.0.229", features = ["derive"] }
simplelog = "=0.12.2"
sqlx = { version = "=0.9.0", default-features = false, features = ["runtime-tokio", "sqlite", "chrono", "derive"] }
tera = { version = "=1.20.1", default-features = false }
