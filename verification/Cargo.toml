[package]
name = "mycelium_improv"
version = "0.1.0"
edition = "2021"
publish = false

[dependencies]
heapless = { version = "=0.7.17", features = ["serde"] }
rmp-serde = "=1.3.1"
embedded-svc = "=0.23.2"
esp-idf-svc = "=0.43.5"
esp-idf-hal = "=0.39.4"
esp-idf-sys = { version = "=0.31.12", features = ["binstart"] }
bluedroid = "=0.3.7"
log = "=0.4.34"
