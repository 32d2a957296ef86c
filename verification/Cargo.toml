[package]
name = "lancedb_bridge"
version = "0.1.0"
edition = "2021"
publish = false

[dependencies]
arrow = { version = "=60.0.0", default-features = false, features = ["ffi"] }
arrow-array = "=60.0.0"
arrow-schema = "=60.0.0"
futures = "=0.3.34"
tokio = { version = "=1.53.2", default-features = false, features = ["rt-multi-thread"] }
lazy_static = "=1.5.1"
libc = "=0.2.190"
