[package]
name = "megastrife"
version = "0.1.0"
edition = "2021"
publish = false

[dependencies]
anyhow = "1"
env_logger = "0.11"
log = "0.4"
minifb = "0.27"
parking_lot = "0.12"
thiserror = "1"
