[package]
name = "wasmer_engine_native"
version = "0.1.0"
edition = "2021"
publish = false

[dependencies]
bincode = "=1.3.3"
cfg-if = "=0.1.10"
leb128 = "=0.2.7"
libloading = "=0.6.7"
object = { version = "=0.19.0", default-features = false, features = ["read_core", "write"] }
serde = { version = "=1.0.229", features = ["derive"] }
tempfile = "=3.27.0"
tracing = "=0.1.44"
wasmer-compiler = { version = "=1.0.2", features = ["translator"] }
wasmer-engine = "=1.0.2"
wasmer-types = "=1.0.2"
wasmer-vm = "=1.0.2"
