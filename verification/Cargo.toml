[package]
name = "btop_beautifier"
version = "0.1.0"
edition = "2021"
publish = false

[dependencies]
bytesize = "1.3"
clap = { version = "4.5", features = ["derive"] }
core_affinity = "0.8"
humantime = "2.1"
nix = { version = "0.29", features = ["mman"] }
rand = "0.8"
rand_pcg = "0.3"
signal-hook = "0.3"
