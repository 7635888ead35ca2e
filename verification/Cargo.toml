[package]
name = "iboot"
version = "0.1.0"
edition = "2021"
publish = false

[dependencies]
assign-resources = "=0.4.1"
cortex-m = { version = "=0.7.10", features = ["inline-asm", "critical-section-single-core"] }
cortex-m-rt = "=0.7.7"
defmt = "=0.3.101"
defmt-rtt = "=0.4.2"
embassy-executor = "=0.7.0"
embassy-futures = "=0.1.2"
embassy-stm32 = { version = "=0.2.0", features = ["stm32f411ce", "unstable-pac", "memory-x", "time-driver-any"] }
embassy-time = { version = "=0.4.0", features = ["tick-hz-32_768"] }
embassy-usb = "=0.4.0"
panic-probe = "=0.3.2"
static_cell = "=2.1.1"
