[package]
name = "kpvault"
version = "0.1.0"
edition = "2021"
publish = false

[dependencies]
anyhow = "1"
cocoon = "0.4"
inquire = { version = "*", features = ["editor"] }
keepass = { version = "0.7", features = ["save_kdbx4"] }
passwords = "3"
wl-clipboard-rs = "*"
