[package]
name = "mut_elems"
version = "0.2.0"
edition = "2021"
publish = false

[dependencies]
thiserror = "1"
