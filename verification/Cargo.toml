[package]
name = "radar_display"
version = "0.1.0"
edition = "2021"
publish = false

[dependencies]
embedded-gfx = "0.1.0"
embedded-graphics = "0.8.2"
esp32-nimble = "*"
esp-idf-hal = "*"
esp-idf-svc = "*"
log = "0.4"
tokio = { version = "1", features = ["rt"] }
