[package]
name = "protobuf_build"
version = "0.1.0"
edition = "2021"
publish = false

[dependencies]
regex = "=1.13.1"
prost-build = "=0.14.4"
protobuf = "=2.28.0"
protobuf-codegen = "=2.28.0"
grpcio-compiler = { version = "=0.13.0", features = ["prost-codec"] }
