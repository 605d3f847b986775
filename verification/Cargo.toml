[package]
name = "magnesium"
version = "0.1.0"
edition = "2021"
publish = false

[dependencies]
secret-service = "2"
chrono = "0.4"
once_cell = "1"
anyhow = "1"
futures = "0.3"
libc = "0.2"
gtk4 = "*"
libadwaita = "*"
