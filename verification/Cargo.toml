[package]
name = "termania"
version = "0.1.0"
edition = "2021"
publish = false

[dependencies]
argh = "0.1"
backtrace = "0.3"
crossterm = "0.25"
tokio = { version = "1", features = ["macros", "rt-multi-thread", "time"] }
tui = "0.19"
