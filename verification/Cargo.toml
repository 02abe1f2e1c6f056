[package]
name = "rs_fsring"
version = "0.1.0"
edition = "2021"
publish = false
