[package]
name = "rd_launcher"
version = "0.1.0"
edition = "2021"
publish = false

[dependencies]
config = "*"
log = "0.4"
opener = "*"
simplelog = "*"
steamlocate = "*"
tao = "*"
which = "*"
