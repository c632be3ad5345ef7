[package]
name = "hir_ids"
version = "0.1.0"
edition = "2021"
publish = false

[dependencies]
log = "0.4"
ra_syntax = "0.1.0"
