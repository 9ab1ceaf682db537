[package]
name = "tryfrom_via_fromstr"
version = "0.1.0"
edition = "2021"
publish = false

[dependencies]
proc-macro2 = "1"
quote = "1"
syn = { version = "2", features = ["full"] }

[dev-dependencies]
prettyplease = "0.2"
proc-macro2 = { version = "1", features = ["span-locations"] }
