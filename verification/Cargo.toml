[package]
name = "sv2_core"
version = "0.1.0"
edition = "2021"
publish = false

[dependencies]
bitcoin = "*"
noise_sv2 = "*"
codec_sv2 = "*"
channels_sv2 = "*"
mining_sv2 = "*"
parsers_sv2 = "*"
