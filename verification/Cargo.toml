[package]
name = "html_pager"
version = "0.1.0"
edition = "2021"
publish = false

[dependencies]
fxhash = "0.2"
anyhow = "1"
chrono = "0.4"
rand = "0.8"
rand_xorshift = "0.3"
