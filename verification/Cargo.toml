[package]
name = "bethlehem"
version = "0.1.0"
edition = "2021"
publish = false

[dependencies]
ash = "*"
bytemuck = { version = "*", features = ["extern_crate_alloc"] }
dispatch2 = "*"
hassle-rs = "*"
objc2 = "*"
objc2-foundation = "*"
objc2-metal = "*"
sdl3 = "*"
thiserror = "*"
