[package]
name = "r_matrix"
version = "0.1.0"
edition = "2021"
publish = false

[dependencies]
rand = { version = "0.8", features = ["small_rng"] }
pancurses = "0.17"
signal-hook = "0.3"
structopt = "0.3"
term_size = "0.3"
