[package]
name = "hook_engine"
version = "0.1.0"
edition = "2021"
publish = false

[dependencies]
proc-macro2 = "1"
syn = { version = "2", features = ["full", "visit-mut"] }
quote = "1"
prettyplease = "0.2"
proc-macro-error = "1"
