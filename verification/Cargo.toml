[package]
name = "sound_processor"
version = "0.1.0"
edition = "2021"
publish = false

[dependencies]
cpal = "0.15"
ctrlc = "3"
embedded-graphics = "0.8"
env_logger = "0.11"
hound = "3.5"
linux-embedded-hal = "0.4"
log = "0.4"
rustfft = "6"
ssd1306 = "0.9"
