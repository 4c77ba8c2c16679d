[package]
name = "reddit_fs"
version = "0.1.0"
edition = "2021"
publish = false

[dependencies]
indexmap = "=2.14.2"
ctrlc = "*"
fuse = "=0.3.1"
libc = "*"
rawr = "=0.1.1"
time = "=0.1.45"
