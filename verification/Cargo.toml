[package]
name = "chemrust-nasl"
version = "0.1.0"
edition = "2021"
publish = false

[dependencies]
castep-cell-io = "=0.2.18"
castep-periodic-table = "=0.5.2"
chemrust-core = "=0.5.1"
clap = { version = "=4.6.7", features = ["derive"] }
crystal-cif-io = "=0.1.2"
kiddo = "=4.2.1"
nalgebra = "=0.33.3"
rayon = "=1.12.0"
serde = { version = "=1.0.229", features = ["derive"] }
serde_yaml = "=0.9.34"
