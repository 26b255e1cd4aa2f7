[package]
name = "evc"
version = "0.1.0"
edition = "2021"
publish = false

[dependencies]
arg_enum_proc_macro = "0.3"
num-derive = "0.4"
num-traits = "0.2"
