[package]
name = "drone_follow"
version = "0.1.0"
edition = "2021"
publish = false

[dependencies]
linearkalman = "=0.1.3"
rulinalg = "=0.4.2"
rand = "=0.7.3"
rust_drone_follow = "=0.6.1"
parrot_ar_drone = "=0.1.3"
opencv = "=0.39.0"
