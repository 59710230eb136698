[package]
name = "riscv_vm"
version = "0.1.0"
edition = "2021"
publish = false

[dependencies]
goblin = "*"
sha3 = "*"
thiserror = "*"
syn = { version = "2", features = ["full"] }
quote = "1"
proc-macro2 = "1"
