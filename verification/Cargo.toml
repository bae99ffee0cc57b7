[package]
name = "owned_singleton"
version = "0.1.0"
edition = "2021"
publish = false

[dependencies]
rand = "=0.6.5"
syn = { version = "=1.0.109", features = ["full"] }
quote = "=1.0.47"
proc-macro2 = "=1.0.107"
stable_deref_trait = "1"
