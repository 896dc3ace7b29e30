[package]
name = "codex_fs_guard"
version = "0.1.0"
edition = "2021"
publish = false

[dependencies]
base64 = "=0.22.1"
landlock = "=0.4.7"
libc = "=0.2.191"
