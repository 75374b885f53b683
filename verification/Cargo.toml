[package]
name = "cassandra_crud"
version = "0.1.0"
edition = "2021"
publish = false

[dependencies]
uuid = "1"
cdrs = { version = "2.3.3", features = ["ssl"] }
cdrs_helpers_derive = "*"
openssl = "*"
