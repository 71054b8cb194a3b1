[package]
name = "seal-bid-auction"
version = "0.1.0"
edition = "2021"
publish = false

[dependencies]
gstd = "=2.0.0"
gmeta = "=1.7.1"
primitive-types = { version = "=0.12.2", default-features = false, features = ["codec", "scale-info"] }
