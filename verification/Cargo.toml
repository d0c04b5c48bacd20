[package]
name = "procdash"
version = "0.1.0"
edition = "2021"
publish = false

[dependencies]
anyhow = "1"
async-process = "1"
bytesize = "1"
crossterm = "0.25"
futures-lite = "1"
sysinfo = { version = "0.29", default-features = false }
tokio = { version = "1", features = ["macros", "rt-multi-thread", "time"] }
tui = "0.19"
