[package]
name = "uvm_install"
version = "0.1.0"
edition = "2021"
publish = false

[dependencies]
console = "*"
dirs-2 = "*"
docopt = "1"
log = "0.4"
serde = { version = "1", features = ["derive"] }
serde_json = "1"
