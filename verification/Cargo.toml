[package]
name = "dcap_verify"
version = "0.1.0"
edition = "2021"
publish = false

[dependencies]
mc-sgx-core-sys-types = "*"
mc-sgx-dcap-sys-types = "*"
mc-sgx-dcap-quoteverify-sys = "*"
subtle = "*"
