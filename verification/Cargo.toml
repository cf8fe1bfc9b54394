[package]
name = "markdown_it_lazyload"
version = "0.1.0"
edition = "2021"
publish = false

[dependencies]
markdown-it = "*"
