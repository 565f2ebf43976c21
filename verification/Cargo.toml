[package]
name = "es_git"
version = "0.1.0"
edition = "2021"
publish = false

[dependencies]
bitflags = "=2.13.2"
chrono = "=0.4.45"
git2 = { version = "=0.20.4", default-features = false, features = ["vendored-libgit2"] }
napi = { version = "=3.15.0", default-features = false, features = ["napi6", "chrono_date"] }
napi-derive = "=3.6.13"
