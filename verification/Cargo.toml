[package]
name = "thermal_control"
version = "0.1.0"
edition = "2021"
publish = false

[dependencies]
heapless = "=0.8.0"
futures = { version = "=0.3.34", default-features = false }
rtic = { version = "2", features = ["thumbv7-backend"] }
rtic-monotonics = { version = "2", features = ["stm32_tim2", "stm32g431kb"] }
rtic-sync = "1"
stm32g4xx-hal = { version = "*", features = ["stm32g431"] }
panic-halt = "*"
