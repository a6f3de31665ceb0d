[package]
name = "libloading_bindgen"
version = "0.1.0"
edition = "2021"
publish = false

[dependencies]
anyhow = "1"
bindgen = { version = "0.58", default-features = false, features = ["runtime"] }
proc-macro2 = "1"
quote = "1"
regex = "1"
structopt = "0.3"
syn = { version = "1", features = ["full", "extra-traits", "visit-mut"] }
thiserror = "1"
