[package]
name = "zmu_cortex_m"
version = "0.1.0"
edition = "2021"
publish = false

[dependencies]
bit_field = "0.10"
byteorder = "1"
enum-set = "*"
