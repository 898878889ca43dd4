[package]
name = "dma_mem2mem"
version = "0.1.0"
edition = "2021"
publish = false

[dependencies]
arrayvec = { version = "0.5", default-features = false }
cortex-m = "0.6"
cortex-m-rt = "0.6"
cortex-m-semihosting = "0.3"
panic-semihosting = "0.5"
stm32f1xx-hal = { version = "0.6", features = ["stm32f103", "medium", "rt"] }
