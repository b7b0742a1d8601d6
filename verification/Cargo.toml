[package]
name = "vcf2parquet"
version = "0.4.1"
edition = "2021"
publish = false

[dependencies]
arrow = { version = "53.3.0", default-features = false }
parquet = { version = "53.3.0", default-features = false, features = ["arrow"] }
noodles = { version = "0.55", features = ["vcf"] }
clap = { version = "4", features = ["derive"] }
niffler = { version = "2", default-features = false }
thiserror = { version = "1" }
