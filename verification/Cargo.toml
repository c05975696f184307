[package]
name = "shsh"
version = "0.1.0"
edition = "2021"
publish = false

[dependencies]
fern = "*"
humantime = "*"
libc = "*"
log = "*"
pty = "*"
signal-hook = "*"
termios = "*"
