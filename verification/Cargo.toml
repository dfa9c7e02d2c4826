[package]
name = "swirl"
version = "0.1.0"
edition = "2021"
publish = false

[dependencies]
diesel = { version = "1.4", features = ["postgres", "serde_json", "r2d2"] }
inventory = "0.1"
proc-macro2 = "1"
quote = "1"
serde = { version = "1", features = ["derive"] }
serde_json = "1"
syn = { version = "1", features = ["full"] }
threadpool = "1.7"
