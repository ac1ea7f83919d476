[package]
name = "zenoh_shell_core"
version = "0.1.0"
edition = "2021"
publish = false

[dependencies]
flume = "=0.12.0"
humantime = "=2.4.0"
uhlc = "=0.9.0"
zenoh-keyexpr = "=1.10.1"
ctrlc = "=3.5.2"
clap = { version = "=4.6.7", features = ["derive"] }
