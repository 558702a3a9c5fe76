[package]
name = "pi_inky_weather_epd"
version = "0.1.0"
edition = "2021"
publish = false

[dependencies]
anyhow = "1"
chrono = "0.4"
clap = { version = "4", features = ["derive"] }
config = "*"
image = { version = "*", default-features = false, features = ["png"] }
resvg = "*"
serde = { version = "1", features = ["derive"] }
serde_json = "1"
tinytemplate = "1"
