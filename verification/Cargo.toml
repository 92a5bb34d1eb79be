[package]
name = "xpy_engine"
version = "0.1.0"
edition = "2021"
publish = false

[dependencies]
diffusionx = "=0.12.1"
gauss-quad = "=0.2.4"
num_cpus = "=1.17.0"
numpy = "=0.30.0"
pyo3 = "=0.30.1"
rand = "=0.10.3"
rayon = "=1.12.0"
thiserror = "=2.0.21"
