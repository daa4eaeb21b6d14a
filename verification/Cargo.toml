[package]
name = "tiledb_predicates"
version = "0.1.0"
edition = "2021"
publish = false

[dependencies]
datafusion = { version = "=55.2.0", default-features = false, features = ["sql"] }
num-traits = "=0.2.19"
itertools = "=0.15.0"
cxx = "=1.0.205"
thiserror = "=1.0.69"
