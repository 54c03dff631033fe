[package]
name = "aspect"
version = "0.3.0"
edition = "2021"
publish = false

[dependencies]
indexmap = "=2.14.2"
proc-macro2 = { version = "=1.0.107", features = ["span-locations"] }
quote = "=1.0.47"
syn = { version = "=2.0.119", features = ["full", "extra-traits"] }
synattra = "=0.2.1"
