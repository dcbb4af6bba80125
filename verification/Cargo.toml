[package]
name = "icm426xx"
version = "0.1.0"
edition = "2021"
publish = false

[dependencies]
bytemuck = "1"
defmt = "0.3"
embassy-executor = { version = "*", features = ["arch-std", "executor-thread"] }
embassy-stm32 = { version = "*", features = ["stm32g491re"] }
embassy-time = "*"
embedded-hal = "0.2.7"
embedded-hal-async = "1.0.0"
panic-halt = "*"
