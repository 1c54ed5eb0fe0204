[package]
name = "redstone_signal"
version = "0.1.0"
edition = "2021"
publish = false

[dependencies]
once_cell = "1"
quartz_nbt = "*"
regex = "1"
thiserror = "1"
uuid = "1"
