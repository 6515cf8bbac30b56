[package]
name = "ch58x_gpio"
version = "0.1.0"
edition = "2021"
publish = false

[dependencies]
critical-section = { version = "1.1", features = ["std"] }
defmt = "0.3"
embedded-hal = { version = "0.2.7", features = ["unproven"] }
