[package]
name = "lcd_terminal"
version = "0.1.0"
edition = "2021"
publish = false

[dependencies]
cortex-m-rt = "0.7"
panic-halt = "0.2"
