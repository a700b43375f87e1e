[package]
name = "rtic_code_skeleton"
version = "0.1.0"
edition = "2021"
publish = false

[dependencies]
syn = { version = "=2.0.119", features = ["full", "visit-mut", "parsing", "printing"] }
quote = "=1.0.47"
proc-macro2 = "=1.0.107"
stm32f4xx-hal = { version = "=0.23.0", features = ["stm32f401"] }
rtic = { version = "=2.4.0", features = ["thumbv7-backend"] }
rtic-monotonics = { version = "=2.2.1", features = ["cortex-m-systick"] }
defmt = "=1.2.0"
toml = "0.8"
