[package]
name = "can_bootloader"
version = "0.1.0"
edition = "2021"
publish = false

[dependencies]
bytemuck = "*"
embedded-can = "*"
embassy-stm32 = { version = "*", features = ["stm32f407vg"] }
embassy-time = "*"
embassy-futures = "*"
cortex-m = "*"
cortex-m-rt = "*"
rtt-target = "*"
defmt = "*"
