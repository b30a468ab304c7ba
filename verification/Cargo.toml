[package]
name = "runner"
version = "0.1.0"
edition = "2021"
publish = false

[dependencies]
async-std = "=1.13.2"
chrono = "=0.4.45"
circular-queue = "=0.2.7"
clap = "=4.6.7"
futures = "=0.3.34"
serde_json = "=1.0.151"
subprocess = "=0.2.15"
termion = "=4.0.6"
