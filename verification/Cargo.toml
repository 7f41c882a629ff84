[package]
name = "channel9"
version = "0.1.0"
edition = "2021"
publish = false

[dependencies]
anyhow = "=1.0.104"
log = "=0.4.35"
serde = { version = "=1.0.229", features = ["derive"] }
serde_json = "=1.0.154"
heapless = "=0.8.0"
embedded-graphics = "=0.8.2"
embedded-hal = "=1.0.0"
embedded-svc = "=0.29.0"
esp-idf-hal = "=0.47.0"
esp-idf-svc = "=0.53.0"
mipidsi = "=0.7.1"
display-interface-spi = "=0.4.1"
littlefs2 = "=0.8.1"
