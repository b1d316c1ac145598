[package]
name = "ping_graph"
version = "0.1.0"
edition = "2021"
publish = false

[dependencies]
chrono = "0.4"
ctrlc = "3"
dns-lookup = "1"
winping = "*"
