[package]
name = "cars2_rich_presence"
version = "0.1.0"
edition = "2021"
publish = false

[dependencies]
discord-presence = "*"
once_cell = "*"
sunset-rs = "*"
