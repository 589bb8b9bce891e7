[package]
name = "zps"
version = "0.1.0"
edition = "2021"
publish = false

[dependencies]
sequoia-openpgp = { version = "*", default-features = false, features = ["crypto-rust", "allow-experimental-crypto", "allow-variable-time-crypto"] }
rand = "*"
clap = { version = "*", features = ["derive"] }
rpassword = "*"
totp-rs = { version = "*", features = ["otpauth"] }
walkdir = "*"
termtree = "*"
