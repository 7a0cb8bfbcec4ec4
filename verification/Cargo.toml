[package]
name = "exec_interpose"
version = "0.1.0"
edition = "2021"
publish = false

[dependencies]
goblin = "=0.10.7"
libc = "=0.2.191"
null-terminated = "=0.2.11"
