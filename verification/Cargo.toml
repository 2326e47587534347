[package]
name = "brunhilde"
version = "0.1.0"
edition = "2021"
publish = false

[dependencies]
anyhow = "=1.0.104"
async-trait = "=0.1.92"
clap = { version = "=4.6.7", features = ["derive"] }
ouroboros = "=0.18.5"
rkyv = { version = "=0.8.18", features = ["smol_str-0_3", "uuid-1"] }
smol_str = "=0.3.7"
tokio = { version = "=1.54.1", features = ["full"] }
uuid = "=1.29.0"
