[package]
name = "sosd"
version = "0.1.0"
edition = "2021"
publish = false

[dependencies]
x11rb = { version = "*", features = ["shm"] }
smithay-client-toolkit = { version = "*", default-features = false }
rustix = { version = "*", features = ["fs", "mm", "shm"] }
memmap2 = "*"
bytemuck = "*"
fastrand = "*"
