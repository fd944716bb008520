[package]
name = "yucpu"
version = "0.1.0"
edition = "2021"
publish = false

[dependencies]
regex = "1"
bitflags = "2"
clap = { version = "4", features = ["derive"] }
colored = "2"
itertools = "0.10"
logos = "0.12"
strum = "0.24"
strum_macros = "0.24"
olc_pixel_game_engine = "*"
