[package]
name = "proto-lab"
version = "0.1.0"
edition = "2021"

[dependencies]
embedded-io = "0.6"
