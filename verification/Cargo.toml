[package]
name = "leftwm_client"
version = "0.1.0"
edition = "2021"
publish = false

[dependencies]
anyhow = "1"
clap = { version = "4", features = ["cargo"] }
leftwm-core = "*"
thiserror = "1"
tokio = { version = "1", features = ["macros", "rt-multi-thread", "time", "fs", "io-util"] }
xdg = "2"
