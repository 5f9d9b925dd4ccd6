[package]
name = "enclave_keygen"
version = "0.1.0"
edition = "2021"
publish = false

[dependencies]
secp256k1 = "*"
tiny-keccak = { version = "2", features = ["keccak"] }
ethereum-types = "*"
dirs = "*"
sgx_types = "*"
sgx_urts = "*"
sgx_tseal = "*"
sgx_rand = "*"
sgx_tcrypto = "*"
sgx_tstd = "*"
