[package]
name = "rustc_codegen_c"
version = "0.1.0"
edition = "2021"
publish = false

[dependencies]
ar = "*"
cc = "*"
env_logger = "*"
hashbrown = "*"
log = "*"
object = "*"
