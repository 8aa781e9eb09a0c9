[package]
name = "d20controller"
version = "0.1.0"
edition = "2021"
publish = false

[dependencies]
atsamd-hal = { version = "=0.8.2", features = ["samd51g19a"] }
embedded-hal = "=0.2.7"
cortex-m-rt = "0.6"
