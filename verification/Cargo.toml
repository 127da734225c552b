[package]
name = "mos6502"
version = "0.1.0"
edition = "2021"
publish = false

[dependencies]
anyhow = "1"
rand = "0.9"
log = "0.4"
env_logger = "0.11"
clap = { version = "4", features = ["derive"] }
sdl2 = "0.37"
