[package]
name = "vprog"
version = "0.1.0"
edition = "2021"
publish = false

[dependencies]
anchor-lang = "=1.2.1"
anchor-spl = "=1.2.1"
bytemuck = { version = "=1.25.2", features = ["derive", "min_const_generics"] }

[dev-dependencies]
sha2 = "=0.10.9"
