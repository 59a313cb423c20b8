[package]
name = "watchy_core"
version = "0.1.0"
edition = "2021"
publish = false

[dependencies]
time = { version = "0.3", default-features = false }
embedded-hal = "1.0"
embedded-hal-async = "1.0"
embedded-graphics = "0.8"
unwrap-infallible = "0.1"
arrayvec = { version = "0.7", default-features = false }
defmt = "0.3"
static_cell = "2"
embassy-executor = "0.7"
embassy-time = "0.4"
embassy-sync = "0.6"
embassy-embedded-hal = "0.3"
esp-hal = { version = "0.23", features = ["esp32", "defmt", "unstable"] }
esp-hal-embassy = { version = "0.6", features = ["esp32"] }
esp-backtrace = { version = "0.15", features = ["esp32", "defmt", "panic-handler"] }
esp-println = { version = "0.13", default-features = false, features = ["esp32", "defmt-espflash", "uart"] }
