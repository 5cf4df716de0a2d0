[package]
name = "coolor"
version = "1.0.0"
edition = "2021"
publish = false

[dependencies]
ansi_colours = { version = "1", default-features = false }
thiserror = "1"
