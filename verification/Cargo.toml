[package]
name = "quiet_timer"
version = "0.1.0"
edition = "2021"
publish = false

[dependencies]
arrayvec = "0.7"
cortex-m = "0.6"
cortex-m-rt = "0.6"
panic-halt = "0.2"
ssd1306 = "0.3"
stm32f4 = { version = "0.11", features = ["stm32f411", "rt"] }
stm32f4xx-hal = { version = "0.8", features = ["stm32f411", "rt"] }
