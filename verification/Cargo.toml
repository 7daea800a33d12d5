[package]
name = "next_fast"
version = "0.1.0"
edition = "2021"
publish = false

[dependencies]
clap = { version = "4", features = ["derive"] }
colored = "2"
tokio = { version = "1", features = ["macros", "rt-multi-thread", "fs"] }
