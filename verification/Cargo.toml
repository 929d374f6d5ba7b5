[package]
name = "mpi_request"
version = "0.1.0"
edition = "2021"
publish = false

[dependencies]
mpi-sys = "*"
proc-macro2 = "1"
quote = "1"
syn = "1"
