[package]
name = "opcode_tables"
version = "0.1.0"
edition = "2021"
publish = false

[dependencies]
clap = { version = "*", features = ["derive"] }
delve = "*"
either = "*"
to_snake_case = "*"
