[package]
name = "kinetic_energy"
version = "0.1.0"
edition = "2021"
publish = false

[dependencies]
memoffset = "*"
skyline = "*"
skyline_smash = "*"
