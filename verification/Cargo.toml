[package]
name = "accountant"
version = "0.1.0"
edition = "2021"
publish = false

[dependencies]
futures = "0.1"
grpcio = "0.4"
postgres = "0.19"
protobuf = "2"
r2d2 = "0.8"
r2d2_postgres = "0.18"
