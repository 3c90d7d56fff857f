[package]
name = "cds_status"
version = "0.1.0"
edition = "2021"
publish = false

[dependencies]
dirs = "=7.0.0"
rayon = "=1.12.0"
rust-bitbar = "=0.3.4"
sdk-cds = "=0.3.0"
serde_json = "=1.0.154"
