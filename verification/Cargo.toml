[package]
name = "rusty"
version = "0.2.0"
edition = "2021"
publish = false

[dependencies]
chrono = "=0.4.45"
encoding_rs = "=0.8.44"
structopt = "=0.3.26"
