[package]
name = "ddc_bucket"
version = "0.1.0"
edition = "2021"
publish = false

[dependencies]
ink_env = "3.4.0"
