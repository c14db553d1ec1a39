[package]
name = "twelve_factor"
version = "0.1.0"
edition = "2021"
publish = false

[dependencies]
config = "0.11"
flexi_logger = "0.14"
getopts = "0.2"
hyper = "0.12"
hyper-router = "0.5"
prometheus = "0.13"
