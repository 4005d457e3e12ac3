[package]
name = "univstring"
version = "0.4.1"
edition = "2021"
publish = false

[dependencies]
widestring = "0.4"
