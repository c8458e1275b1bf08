[package]
name = "midi_waveform"
version = "0.1.0"
edition = "2021"
publish = false

[dependencies]
rustysynth = "*"
sfml = "*"
