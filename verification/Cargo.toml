[package]
name = "portfolio_sim"
version = "0.1.0"
edition = "2021"
publish = false

[dependencies]
bincode = "1"
rayon = "*"
tokio = { version = "*", features = ["rt-multi-thread", "macros"] }
rand = "*"
