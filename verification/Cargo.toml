[package]
name = "ssd1322"
version = "0.3.0"
edition = "2021"
publish = false

[dependencies]
display-interface = "0.5"
embedded-hal = "1.0"
embedded-hal-async = "1.0"
