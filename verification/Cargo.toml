[package]
name = "deno_bindgen_cli"
version = "0.1.0"
edition = "2021"
publish = false

[dependencies]
cargo_metadata = "=0.23.1"
libloading = "=0.9.0"
structopt = "=0.3.26"
