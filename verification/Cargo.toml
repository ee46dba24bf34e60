[package]
name = "composable_admin"
version = "0.1.0"
edition = "2021"
publish = false

[dependencies]
cosmwasm-std = "0.10"
proc-macro2 = "1"
quote = "1"
schemars = "0.7"
serde = { version = "1", features = ["derive"] }
syn = { version = "1", features = ["full"] }
