[package]
name = "rocket_editor"
version = "0.1.0"
edition = "2021"
publish = false

[dependencies]
unicode-segmentation = "1"
regex = "1"
crossterm = "0.25"
tui = "0.19"
