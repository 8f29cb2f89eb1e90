[package]
name = "periph_drivers"
version = "0.1.0"
edition = "2021"
publish = false

[dependencies]
anyhow = "=1.0.104"
chrono = "=0.4.45"
embedded-graphics = "=0.8.2"
embedded-hal = "=1.0.0"
esp-idf-hal = "*"
esp-idf-svc = "=0.51.0"
heapless = "=0.8.0"
log = "=0.4.34"
sh1106 = "=0.5.0"
