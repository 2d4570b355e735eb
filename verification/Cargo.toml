[package]
name = "registry_client"
version = "0.1.0"
edition = "2021"
publish = false

[dependencies]
semaphore-rs = "*"
ark-bn254 = "*"
ark-ff = "*"
