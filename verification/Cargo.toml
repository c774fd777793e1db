[package]
name = "mdbg_rs"
version = "0.1.0"
edition = "2021"
publish = false

[dependencies]
clap = { version = "4", features = ["derive"] }
crossbeam = "0.8"
gimli = "0.28"
libc = "0.2"
memmap = "0.7"
nix = { version = "0.26", features = ["ptrace", "process", "signal", "personality"] }
object = "0.32"
rustyline = { version = "12", features = ["derive"] }
