[package]
name = "epaper_panel"
version = "0.1.0"
edition = "2021"
publish = false

[dependencies]
anyhow = "1"
embedded-graphics = "0.8"
embedded-svc = "0.28"
epd-waveshare = "0.6"
esp-idf-svc = "0.51"
log = "0.4"
serde = { version = "1", features = ["derive"] }
serde_json = "1"

[dev-dependencies]
embedded-hal = "1"
