[package]
name = "ebnf_jsx"
version = "0.1.0"
edition = "2021"
publish = false

[dependencies]
ebnf = "=0.1.4"
nom = "=7.1.3"
tera = { version = "=1.20.1", default-features = false }
