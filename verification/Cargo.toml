[package]
name = "redstone"
version = "0.1.0"
edition = "2021"
publish = false

[dependencies]
twox-hash = "=2.1.5"
tonic = "=0.12.3"
prost = "=0.13.5"
tokio = { version = "*", features = ["rt-multi-thread", "macros", "time"] }
parking_lot = "*"
thiserror = "*"
