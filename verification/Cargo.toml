[package]
name = "strunemix"
version = "0.1.0"
edition = "2021"
publish = false

[dependencies]
array-init = "2"
heck = "0.5"
micromap = "*"
proc-macro2 = "1"
quote = "1"
syn = "2"
thiserror = "1"
