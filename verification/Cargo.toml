[package]
name = "hdf5_location"
version = "0.1.0"
edition = "2021"
publish = false

[dependencies]
libhdf5-sys = "*"
