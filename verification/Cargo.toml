[package]
name = "cachyos_chroot"
version = "0.1.0"
edition = "2021"
publish = false

[dependencies]
clap = { version = "4", features = ["derive"] }
colored = "*"
dialoguer = "*"
fstab = "*"
log = "0.4"
nix = { version = "*", features = ["user"] }
serde = { version = "1", features = ["derive"] }
serde_json = "1"
subprocess = "0.2"
tempfile = "3"
which = "*"
