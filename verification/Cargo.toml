[package]
name = "rpi_kernel_core"
version = "0.1.0"
edition = "2021"
publish = false

[dependencies]
cortex-a = { version = "=8.1.1", default-features = false }
spin = "=0.12.3"
tock-registers = "=0.10.1"
