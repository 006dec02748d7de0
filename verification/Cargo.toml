[package]
name = "zap"
version = "0.1.0"
edition = "2021"
publish = false

[dependencies]
aes-gcm = "0.10"
chacha20poly1305 = "0.10"
lz4_flex = "0.11"
flate2 = "1"
snap = "1"
sha2 = "0.10"
clap = { version = "4", features = ["derive"] }
log = "0.4"
simple_logger = "*"
rayon = "1"
crossbeam = "0.8"
walkdir = "2"
rpassword = "7"
thiserror = "1"
zapf = "*"
