[package]
name = "actor_context"
version = "0.1.0"
edition = "2021"
publish = false

[dependencies]
actix = { version = "=0.10.0", default-features = false }
actix-rt = "=1.1.1"
futures-channel = "=0.3.34"
# actix 0.10 uses `futures_util::sink` and leaves the feature to others;
# with actix's default features off, nothing else switches it on.
futures-util = { version = "=0.3.34", default-features = false, features = ["sink"] }
