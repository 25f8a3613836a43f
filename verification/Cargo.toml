[package]
name = "char_lcd_rgb_i2c"
version = "0.1.0"
edition = "2021"
publish = false

[dependencies]
mcp230xx = "*"
rppal = { version = "*", features = ["hal"] }
