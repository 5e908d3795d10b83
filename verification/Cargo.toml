[package]
name = "alacritty_terminal"
version = "0.1.0"
edition = "2021"
publish = false

[dependencies]
base64 = "0.22"
flate2 = "1"
libc = "0.2"
log = "0.4"
png = "0.18"
serde = { version = "1", features = ["derive"] }
