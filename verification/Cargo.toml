[package]
name = "fog_schemars"
version = "0.1.0"
edition = "2021"
publish = false

[dependencies]
fog-pack = "=0.5.0"
bytes = "*"
serde_bytes = "*"
smallstr = "*"
smallvec = "*"
smartstring = "*"
smol_str = "*"
uuid = "*"
