[package]
name = "bitbeats"
version = "0.1.0"
edition = "2021"
publish = false

[dependencies]
rand = "0.8"
rust-music-theory = "0.2"
rodio = "0.17"
crossbeam-channel = "0.5"
crossterm = "0.27"
dasp_signal = "0.11"
