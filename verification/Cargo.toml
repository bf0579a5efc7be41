[package]
name = "nexa_vortex_core"
version = "0.1.0"
edition = "2021"
publish = false

[dependencies]
mesocarp = "*"
pyo3 = "0.19"
serde = { version = "1", features = ["derive"] }
sysinfo = "0.29"
thiserror = "1"
uuid = { version = "1", features = ["v4"] }
