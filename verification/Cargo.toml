[package]
name = "rust_rtos"
version = "0.1.0"
edition = "2021"
publish = false

[dependencies]
heapless = "=0.8.0"
cortex-m = "=0.7.10"
alloc-cortex-m = "=0.4.4"
cortex-m-rt = "=0.7.7"
panic-semihosting = "=0.6.0"
stm32f4xx-hal = { version = "*", features = ["stm32f401"] }
