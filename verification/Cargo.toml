[package]
name = "module_registry"
version = "0.1.0"
edition = "2021"
publish = false

[dependencies]
ctor = "=0.2.9"
once_cell = "=1.21.4"
thread_local = "=1.1.10"
