[package]
name = "svbony"
version = "0.1.0"
edition = "2021"
publish = false

[dependencies]
chrono = "=0.4.45"
numeris = "=0.6.0"
thiserror = "=2.0.21"
