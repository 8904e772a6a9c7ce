[package]
name = "spwn_cmpl"
version = "0.1.0"
edition = "2021"
publish = false

[dependencies]
rev_buf_reader = "*"
unzpack = "*"
