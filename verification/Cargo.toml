[package]
name = "heapbeat"
version = "0.1.0"
edition = "2021"
publish = false

[dependencies]
tokio = { version = "1", features = ["rt-multi-thread", "macros", "time"] }
tonic = { version = "0.11", features = ["tls"] }
prost = "0.12"
jemalloc_pprof = "*"
