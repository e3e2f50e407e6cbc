[package]
name = "rails_supervisor"
version = "0.1.0"
edition = "2021"
publish = false

[dependencies]
tokio = { version = "*", features = ["macros", "rt-multi-thread", "process", "time", "sync"] }
reqwest = { version = "*", default-features = false }
