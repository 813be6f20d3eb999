[package]
name = "udf_validator"
version = "0.1.0"
edition = "2021"
publish = false

[dependencies]
luaparse = "*"
rlua = "0.19"
proc-macro2 = "1"
quote = "1"
syn = "1"
