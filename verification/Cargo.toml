[package]
name = "llamavision"
version = "0.1.0"
edition = "2021"
publish = false

[dependencies]
atomic-wait = "1"
anyhow = "1"
clap = { version = "4", features = ["derive"] }
tracing = "0.1"
tracing-subscriber = "0.3"
fftw = "0.8"
pipewire = "0.8"
sdl2 = "0.37"
