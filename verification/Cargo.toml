[package]
name = "falling_sand"
version = "0.1.0"
edition = "2021"
publish = false

[dependencies]
fastrand = "2"
miniquad = "0.3"
egui = "0.19"
egui-miniquad = "0.12"
glam = "*"
