//! Fixed values shared by the host side and the trusted side.
use vstd::prelude::*;

verus! {

/// Width in bytes of a secret scalar.
pub const SECRET_KEY_SIZE: usize = 32;

/// Width in bytes of an uncompressed public point.
pub const PUBLIC_KEY_SIZE: usize = 65;

/// Width in bytes of the random record sealed by `create_sealeddata`.
pub const RANDOM_RECORD_SIZE: usize = 16;

/// Width in bytes of an account address.
pub const ADDRESS_SIZE: usize = 20;

/// Width in bytes of a Keccak-256 digest.
pub const DIGEST_SIZE: usize = 32;

/// Width in bytes of a launch token.
pub const LAUNCH_TOKEN_SIZE: usize = 1024;

/// Most draws from the random source that one key generation may consume.
pub const MAX_KEYGEN_DRAWS: usize = 8;

pub const HEX_PREFIX: &'static str = "0x";

pub const URL_PREFIX: &'static str = "https://";

pub const URL_SUFFIX: &'static str = ".smilo.network/";

pub const ENCLAVE_TOKEN: &'static str = "enclave.token";

pub const ENCLAVE_FILE: &'static str = "enclave.signed.so";

pub const ETH_PREFIX: &'static str = "\x19Smilo Signed Message:\n32";

pub const NETWORK_REGEX: &'static str = r"(testnet)|(mainnet)";

} // verus!
