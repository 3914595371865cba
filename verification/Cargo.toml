[package]
name = "forkfs"
version = "0.1.0"
edition = "2021"
publish = false

[dependencies]
clap = { version = "4", features = ["derive"] }
dirs = "*"
error-stack = "*"
fuc_engine = "*"
rustix = { version = "*", features = ["fs", "mount", "process", "thread"] }
thiserror = "*"
