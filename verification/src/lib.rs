//! Key generation and sealing behind a trusted execution boundary.
//!
//! The library holds the rules of the boundary: which calls may cross it,
//! how large every buffer must be, how a sealed blob is laid out and when a
//! blob is refused. The work that only the platform can do (drawing random
//! bytes, deriving the sealing key, authenticated encryption) is done by
//! the caller, who hands its outcome to the library as plain values.

pub mod constants;
pub mod error;
pub mod gateway;
pub mod keygen;
pub mod scalar;
pub mod sealing;
pub mod token;
pub mod unsealing;
pub mod utils;
