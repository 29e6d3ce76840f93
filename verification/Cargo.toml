[package]
name = "ios_bridge"
version = "0.1.0"
edition = "2021"
publish = false

[dependencies]
git2 = { version = "=0.21.0", default-features = false }
# Not called by this crate. radicle names indexmap without its default
# features, yet uses `IndexMap` and `IndexSet` with the default hasher, which
# indexmap has only with `std`: this line switches that feature on.
indexmap = { version = "=2.14.2", features = ["std"] }
radicle = { version = "=0.25.1", default-features = false }
