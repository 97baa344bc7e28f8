[package]
name = "statharvest"
version = "0.1.0"
edition = "2021"
publish = false

[dependencies]
select = "0.6"
reqwest = { version = "0.12", default-features = false, features = ["blocking"] }
serde = { version = "1", features = ["derive"] }
tokio = { version = "1", features = ["rt", "rt-multi-thread", "macros"] }
