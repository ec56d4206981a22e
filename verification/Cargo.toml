[package]
name = "raytracing"
version = "0.1.0"
edition = "2021"
publish = false

[dependencies]
indicatif = "0.17"
miette = "7"
owo-colors = "4"
png = "0.17"
rand = "0.9"
toml = "0.8"
