[package]
name = "gitstatus"
version = "0.1.0"
edition = "2021"
rust-version = "1.95"
publish = false

[dependencies]
anyhow = "=1.0.104"
gix = { version = "=0.70.0", features = ["status"] }
# Not used directly. gix depends on kstring through gix-attributes, and
# kstring 2.0.5 asks for a newer compiler than rust-version; the pin holds
# the build to a release that does not.
kstring = "=2.0.2"
