[package]
name = "avro_ser"
version = "0.1.0"
edition = "2021"
publish = false

[dependencies]
serde = "1"
ref_thread_local = "*"
