[package]
name = "rusty_git_gui"
version = "0.1.0"
edition = "2021"
publish = false

[dependencies]
regex = "1"
similar = "2"
git2 = { version = "0.18", default-features = false }
gtk = "0.18"
dirs = "5"
rust-ini = "0.19"
anyhow = "1"
