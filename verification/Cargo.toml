[package]
name = "mandy"
version = "0.1.0"
edition = "2021"
publish = false

[dependencies]
clap = "2"
find_folder = "0.3"
image = { version = "0.25", default-features = false, features = ["png"] }
ocl = "0.19"
