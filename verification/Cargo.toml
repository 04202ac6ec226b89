[package]
name = "syn_select"
version = "0.3.0"
edition = "2021"
publish = false

[dependencies]
syn = { version = "=0.15.44", default-features = false, features = ["clone-impls", "extra-traits", "full", "parsing"] }
