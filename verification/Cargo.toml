[package]
name = "emanager"
version = "0.1.0"
edition = "2021"
publish = false

[dependencies]
anyhow = "*"
battery = "*"
clap = { version = "*", features = ["derive"] }
hyprland = "*"
notify-rust = "*"
rand = "*"
zbus = "*"
