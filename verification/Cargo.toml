[package]
name = "rigour_core"
version = "0.1.0"
edition = "2021"
publish = false

[dependencies]
unicode-general-category = "*"
unicode-casefold = "*"
unicode-normalization = "*"
rust_icu_sys = "*"
rust_icu_utrans = "*"
