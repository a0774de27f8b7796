[package]
name = "lynx_embedded"
version = "0.1.0"
edition = "2021"
publish = false

[dependencies]
pn532 = "*"
embedded-hal = "0.2"
nb = "0.1"
void = "1"
