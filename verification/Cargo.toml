[package]
name = "rust_cache_warmer"
version = "1.2.0"
edition = "2021"
publish = false

[dependencies]
anyhow = "1"
clap = { version = "4", features = ["derive"] }
env_logger = "0.11"
futures = "0.3"
ignore = "0.4"
indicatif = "0.17"
libc = "0.2"
log = "0.4"
nix = { version = "0.28", features = ["fs", "mman"] }
num_cpus = "1"
pprof = { version = "0.13", features = ["flamegraph"] }
rio = "0.9"
tokio = { version = "1", features = ["full"] }
tokio-uring = "0.4"
