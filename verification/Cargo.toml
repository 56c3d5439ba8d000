[package]
name = "cmnd_n_ctrl"
version = "0.1.0"
edition = "2021"
publish = false

[dependencies]
serde = { version = "=1.0.229", features = ["derive"] }
serde_json = "=1.0.154"
directories = "=5.0.1"
ureq = { version = "=2.12.1", features = ["json"] }
ratatui = "0.29"
crossterm = "0.28"
