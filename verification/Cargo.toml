[package]
name = "sensor_things"
version = "0.1.0"
edition = "2021"
publish = false

[dependencies]
serde_json = "=1.0.154"
webthing = "=0.11.0"
rand = "=0.6.5"
bme680 = "=0.5.1"
embedded-hal = "=0.2.7"
linux-embedded-hal = "=0.3.2"
env_logger = { version = "=0.6.2", default-features = false }
