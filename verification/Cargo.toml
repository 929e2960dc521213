[package]
name = "mqtt_logger"
version = "0.1.0"
edition = "2021"
publish = false

[dependencies]
chrono = "0.4"
clap = { version = "4", features = ["derive"] }
rumqttc = { version = "*", default-features = false }
tokio = { version = "1", features = ["macros", "rt-multi-thread"] }
