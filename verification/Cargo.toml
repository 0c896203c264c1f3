[package]
name = "cotton"
version = "0.1.0"
edition = "2021"
publish = false

[dependencies]
anyhow = "1"
byteorder = "1"
dotenv = "0.15"
getset = "0.1"
log = "0.4"
nuid = "*"
pretty-hex = "*"
