[package]
name = "ppp_client"
version = "0.1.0"
edition = "2021"
publish = false

[dependencies]
clap = "2"
grpc = "0.6"
protobuf = "2"
futures = "0.1"
futures-cpupool = "0.1"
pg-extend = "*"
pg-extern-attr = "*"
