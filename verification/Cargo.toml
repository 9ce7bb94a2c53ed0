[package]
name = "migration_planner"
version = "0.1.0"
edition = "2021"
publish = false

[dependencies]
async-trait = "=0.1.92"
quaint = { version = "=0.1.13", features = ["sqlite"] }
