[package]
name = "raytracer"
version = "0.1.0"
edition = "2021"
publish = false

[dependencies]
anyhow = "1"
bvh = "=0.6.0"
clap = { version = "4", features = ["derive"] }
image = "=0.25.10"
itertools = "*"
nalgebra-glm = { version = "=0.21.0", features = ["serde-serialize"] }
obj-rs = "=0.7.4"
rand = "=0.8.8"
rand_distr = "=0.4.3"
rayon = "1"
serde = { version = "1", features = ["derive", "rc"] }
serde_json = "1"
typetag = "=0.2.23"
