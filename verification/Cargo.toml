[package]
name = "novatel_oem6_api"
version = "0.1.0"
edition = "2021"
publish = false

[dependencies]
serial = "0.4"
