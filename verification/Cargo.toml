[package]
name = "rtlsdr"
version = "0.1.0"
edition = "2021"
publish = false

[dependencies]
librtlsdr-sys = "*"
log = "0.4"
quicli = "0.4"
signal-hook = "0.1"
structopt = "0.2"
