[package]
name = "rtl_scanner"
version = "0.1.0"
edition = "2021"
publish = false

[dependencies]
anyhow = "1"
libc = "0.2"
log = "0.4"
num = "*"
rtlsdr = "*"
simplelog = "*"
structopt = "0.3"
