[package]
name = "rustberry_poe_monitor"
version = "0.1.0"
edition = "2021"
publish = false

[dependencies]
clap = { version = "4", features = ["derive"] }
display-interface = "0.4"
embedded-graphics = "0.8"
env_logger = "0.10"
linux-embedded-hal = "0.3"
log = "0.4"
profont = "0.7"
serde_json = "1"
ssd1306 = "0.8"
sysinfo = "0.30"
