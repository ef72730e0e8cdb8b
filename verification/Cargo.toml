[package]
name = "emu_test_runner"
version = "0.1.0"
edition = "2021"
publish = false

[dependencies]
anyhow = "*"
image = "*"
indicatif = "*"
once_cell = "*"
owo-colors = "*"
rayon = "*"
serde = { version = "*", features = ["derive"] }
