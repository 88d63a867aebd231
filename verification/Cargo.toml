[package]
name = "sdr"
version = "0.1.0"
edition = "2021"
publish = false

[dependencies]
num = "*"
rustfft = "*"
hound = "*"
byteorder = "*"
nalgebra = "*"
libsamplerate-sys = "*"
