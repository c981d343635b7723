[package]
name = "imagenie"
version = "0.1.0"
edition = "2021"
publish = false

[dependencies]
image = { version = "=0.25.10", default-features = false, features = ["png", "jpeg"] }
dirs = "=7.0.0"
half = "=2.7.1"
ndarray = "=0.16.1"
ort = { version = "=2.0.0-rc.13", default-features = false, features = ["load-dynamic", "ndarray", "half"] }
rayon = "=1.12.0"
