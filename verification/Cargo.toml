[package]
name = "rgc"
version = "0.1.0"
edition = "2021"
publish = false

[dependencies]
url = "2"
async-std = "1"
async-native-tls = "*"
eframe = "0.12"
