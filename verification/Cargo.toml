[package]
name = "adc_pipeline"
version = "0.1.0"
edition = "2021"
publish = false

[dependencies]
cortex-m = "0.6"
cortex-m-rt = "0.6"
cortex-m-semihosting = "0.3"
alloc-cortex-m = "*"
stm32f4 = { version = "0.11", features = ["stm32f446", "rt"] }
