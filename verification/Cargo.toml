[package]
name = "daygrid"
version = "0.1.0"
edition = "2021"
publish = false

[dependencies]
anyhow = "1"
chrono = "0.4"
chrono-tz = "0.10"
ctrlc = "3"
dotenv = "0.15"
google-calendar3 = "*"
oauth2 = { version = "5", features = ["reqwest-blocking"] }
ratatui = "0.29"
reqwest = { version = "0.12", features = ["blocking"] }
serde_json = "1"
