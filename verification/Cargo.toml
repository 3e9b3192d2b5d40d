[package]
name = "badge"
version = "0.1.0"
edition = "2021"
publish = false

[dependencies]
cortex-m-rt = "=0.7.7"
defmt = "=0.3.101"
defmt-rtt = "=0.4.2"
embassy-executor = { version = "=0.7.0", features = ["defmt"] }
embassy-stm32 = { version = "=0.2.0", features = ["defmt", "stm32l072cz", "time-driver-tim2", "exti", "memory-x"] }
embassy-time = { version = "=0.4.0", features = ["defmt", "tick-hz-32_768"] }
embedded-hal = "=1.0.0"
panic-halt = "=1.0.0"
static_cell = "=2.1.1"
