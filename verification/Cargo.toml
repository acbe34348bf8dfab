[package]
name = "petalsonic"
version = "0.1.0"
edition = "2021"
publish = false

[dependencies]
crossbeam-channel = "*"
ringbuf = "*"
rubato = "*"
symphonia = "*"
glam = "*"
log = "*"
thiserror = "*"
cpal = "*"
audionimbus = "*"
