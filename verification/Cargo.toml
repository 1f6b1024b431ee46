[package]
name = "smart_hot_water_tank"
version = "0.1.0"
edition = "2021"
publish = false

[dependencies]
anyhow = "=1.0.104"
axum = "=0.8.9"
chrono = "=0.4.45"
embedded-graphics = "=0.8.2"
embedded-hal = "=1.0.0"
embedded-svc = "=0.28.1"
epd-waveshare = "=0.6.0"
esp-idf-svc = "=0.51.0"
influxdb = { version = "=0.8.0", features = ["derive", "chrono"] }
log = "=0.4.34"
max31855-rs = "=0.1.0"
serde = { version = "=1.0.229", features = ["derive"] }
tokio = { version = "=1.54.1", features = ["full"] }
tracing = "=0.1.44"
tracing-subscriber = "=0.3.23"
u8g2-fonts = "=0.8.0"

[dev-dependencies]
serde_json = "=1.0.154"
