[package]
name = "interustception"
version = "0.1.0"
edition = "2021"
publish = false

[dependencies]
wdk = "*"
wdk-sys = "*"
wdk-alloc = "*"
wdk-panic = "*"
nt-string = "*"
num_enum = "*"
snafu = "*"
