[package]
name = "flexion"
version = "0.1.0"
edition = "2021"
publish = false

[dependencies]
embassy-time = { version = "=0.5.1", features = ["std"] }
embassy-sync = "=0.8.0"
embassy-futures = "=0.1.2"
embassy-executor = { version = "=0.9.1", features = ["arch-std", "executor-thread"] }
embassy-stm32 = { version = "*", features = ["stm32f105rc", "exti"] }
heapless = "=0.9.3"
log = "=0.4.35"
static_cell = "=2.1.1"
