[package]
name = "eeprom_decode"
version = "0.1.0"
edition = "2021"
publish = false

[dependencies]
pretty-hex = "0.4"
