[package]
name = "riv"
version = "0.1.0"
edition = "2021"
publish = false

[dependencies]
fs_extra = "=1.3.0"
natord = "=1.0.9"
shellexpand = "=3.1.2"
trash = "=5.2.9"
glob = "=0.3.4"
clap = "=4.6.7"
sdl2 = { version = "=0.38.0", features = ["image", "ttf"] }
crossbeam-channel = "=0.5.17"
crossbeam-utils = "=0.8.23"
