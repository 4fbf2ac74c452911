[package]
name = "delta_synth"
version = "0.1.0"
edition = "2021"
publish = false

[dependencies]
convert_case = "*"
syn = "1"
quote = "1"
proc-macro2 = "1"
