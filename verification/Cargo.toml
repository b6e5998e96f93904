[package]
name = "nt"
version = "0.1.0"
edition = "2021"
publish = false

[dependencies]
getopts = "0.2"
rand = "0.4"
sqlite3 = "*"
time = "0.1"
