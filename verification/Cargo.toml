[package]
name = "flash_mock"
version = "0.1.0"
edition = "2021"
publish = false

[dependencies]
anyhow = "1"
embedded-storage = "0.3"
thiserror = "1"
