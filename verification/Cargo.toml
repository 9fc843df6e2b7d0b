[package]
name = "rust_music_player"
version = "0.1.0"
edition = "2021"
publish = false

[dependencies]
alac = "0.5"
anyhow = "1"
crossterm = "0.28"
ffmpeg-next = "*"
lewton = "0.10"
lofty = "*"
ogg = "0.8"
opus = "0.3"
rodio = "0.20"
terminal_size = "0.4"
