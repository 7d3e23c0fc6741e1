[package]
name = "franklin"
version = "0.1.0"
edition = "2021"
publish = false

[dependencies]
anyhow = "1"
clap = { version = "3", features = ["cargo"] }
image = "0.24"
num-integer = "0.1"
rand = "0.8"
rayon = "1"
show-image = "*"
