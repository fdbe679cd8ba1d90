[package]
name = "mappers"
version = "0.1.0"
edition = "2021"
publish = false

[dependencies]
const_soft_float = "*"
float-cmp = "=0.10.0"
geographiclib-rs = "=0.2.7"
libm = "=0.2.16"
thiserror = "=2.0.21"
