[package]
name = "vsv"
version = "0.1.0"
edition = "2021"
publish = false

[dependencies]
anyhow = "=1.0.104"
clap = { version = "=4.6.7", features = ["derive"] }
dirs = "=7.0.0"
duct = "*"
libc = "=0.2.190"
yansi = "=1.0.1"
