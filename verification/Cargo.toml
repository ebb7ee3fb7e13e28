[package]
name = "schach"
version = "0.1.0"
edition = "2021"
publish = false

[dependencies]
chess = "=3.2.0"
rand = "=0.8.8"
rayon = "=1.10.0"
shakmaty = "=0.27.3"
shakmaty-syzygy = "=0.25.3"
san-rs = "=0.3.1"
