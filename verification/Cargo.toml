[package]
name = "stm32l0xx_hal"
version = "0.7.0"
edition = "2021"
publish = false

[dependencies]
cast = { version = "0.3", default-features = false }
embedded-hal = { version = "0.2", features = ["unproven"] }
nb = "1"
void = { version = "1", default-features = false }
cortex-m = "0.7"
embedded-time = "0.12"
rtcc = "0.3"
as-slice = "0.2"
stm32l0 = { version = "0.13", features = ["stm32l0x2"] }
stm32-usbd = "0.6"
