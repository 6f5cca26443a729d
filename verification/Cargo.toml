[package]
name = "hammer2_fuse"
version = "0.1.0"
edition = "2021"
publish = false

[dependencies]
daemonize = "=0.5.0"
env_logger = "=0.11.11"
fuser = { version = "=0.15.1", default-features = false, features = ["abi-7-11"] }
getopts = "=0.2.24"
home = "=0.5.12"
libc = "=0.2.191"
log = "=0.4.34"
nix = "=0.31.3"
simplelog = "=0.12.2"
syslog = "=7.0.0"
