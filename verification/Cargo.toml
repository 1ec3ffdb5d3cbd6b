[package]
name = "ckb_script_ipc"
version = "0.1.0"
edition = "2021"
publish = false

[dependencies]
hex = "*"
sha2 = "*"
ripemd = "*"
blake2b-ref = "*"
k256 = { version = "*", features = ["ecdsa", "schnorr"] }
ed25519-dalek = "*"
serde = { version = "*", features = ["derive"] }
serde_molecule = "*"
ckb-std = "*"
ckb-vm = "*"
