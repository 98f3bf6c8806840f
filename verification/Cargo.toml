[package]
name = "gentoo_kernel_builder"
version = "0.1.0"
edition = "2021"
publish = false

[dependencies]
config = "*"
dialoguer = "*"
indicatif = "*"
serde = { version = "*", features = ["derive"] }
sudo = "*"
