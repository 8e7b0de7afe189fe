[package]
name = "customsyscall"
version = "0.1.0"
edition = "2021"
publish = false

[dependencies]
ambassador = "=0.4.2"
anyhow = "=1.0.104"
blake2 = "=0.10.6"
cid = { version = "=0.11.3", default-features = false }
crc = "=3.4.0"
frc42_dispatch = "=11.0.0"
fvm = { version = "=4.8.4", default-features = false }
fvm_ipld_encoding = "=0.5.4"
fvm_sdk = "=4.8.4"
fvm_shared = "=4.8.4"
hex = "=0.4.3"
num-derive = "=0.4.2"
num-traits = "=0.2.19"
pbkdf2 = "=0.12.2"
rand = "=0.8.8"
rust-argon2 = "=3.0.0"
serde = { version = "1", features = ["derive"] }
sha2 = "=0.10.9"
