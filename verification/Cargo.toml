[package]
name = "lora_node"
version = "0.1.0"
edition = "2021"
publish = false

[dependencies]
heapless = "=0.8.0"
cortex-m = "=0.7.10"
defmt = "=0.3.101"
defmt-rtt = "=0.4.2"
panic-probe = { version = "=0.3.2", features = ["print-defmt"] }
embassy-executor = { version = "=0.6.3", features = ["arch-std", "executor-thread"] }
embassy-stm32 = { version = "=0.1.0", features = ["stm32wl55jc-cm4", "time-driver-any", "memory-x", "unstable-pac"] }
embassy-time = { version = "=0.3.2", features = ["tick-hz-32_768"] }
embedded-graphics = "=0.8.2"
sh1106 = "=0.5.0"
lora-phy = { version = "=3.0.1", features = ["lorawan-radio"] }
lorawan-device = { version = "=0.12.2", features = ["embassy-time", "default-crypto"] }
embedded-hal-async = "=1.0.0"
