[package]
name = "lpr"
version = "0.1.0"
edition = "2021"
publish = false

[dependencies]
hostname = "0.1"
username = "0.2"
clap = "2"
