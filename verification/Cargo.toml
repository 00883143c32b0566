[package]
name = "led_engine"
version = "0.1.0"
edition = "2021"
publish = false

[dependencies]
esp-idf-svc = "*"
log = "*"
ws2812-esp32-rmt-driver = "*"
