[package]
name = "croissant_core"
version = "0.1.0"
edition = "2021"
publish = false

[dependencies]
bcrypt = "=0.19.3"
tokio-postgres = { version = "=0.7.18", features = ["with-chrono-0_4"] }
tokio = { version = "=1.53.2", features = ["rt", "macros"] }
dotenv = "=0.15.0"
chrono = "=0.4.45"
serde = { version = "=1.0.229", features = ["derive"] }
