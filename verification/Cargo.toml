[package]
name = "ec_slimloader_descriptors"
version = "0.1.0"
edition = "2021"
publish = false

[dependencies]
bytemuck = { version = "1", features = ["derive"] }
constmuck = "1"
crc = "3"
