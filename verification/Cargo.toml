[package]
name = "mutx"
version = "0.3.0"
edition = "2021"
publish = false

[dependencies]
anyhow = "*"
atomic-write-file = "*"
chrono = "*"
clap = { version = "*", features = ["derive"] }
directories = "*"
fs2 = "*"
libc = "*"
rand = "*"
sha2 = "*"
