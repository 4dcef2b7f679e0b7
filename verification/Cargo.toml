[package]
name = "gameloop"
version = "0.1.0"
edition = "2021"
publish = false

[dependencies]
glium = "=0.25.1"
png = "=0.16.8"
rand = "=0.6.5"
num-traits = "=0.2.19"
