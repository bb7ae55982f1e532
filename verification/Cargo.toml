[package]
name = "indexed_valued_enums"
version = "1.0.0"
edition = "2021"
publish = false

[dependencies]
nanoserde = "*"
serde = "1"
const-default = "1"
syn = { version = "1", features = ["full", "extra-traits"] }
quote = "1"
proc-macro2 = "1"
