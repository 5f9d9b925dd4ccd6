//! The launch token: opaque platform bytes that speed up the creation of
//! an instance. A token that is missing or damaged is no error: the
//! instance is then created with a blank token.
use vstd::prelude::*;
use crate::constants::LAUNCH_TOKEN_SIZE;

verus! {

/// A launch token as the platform takes it.
pub type LaunchToken = [u8; 1024];

/// The token that starts a creation from nothing: all zero.
pub open spec fn blank_token() -> Seq<u8> {
    Seq::new(LAUNCH_TOKEN_SIZE as nat, |i: int| 0u8)
}

/// The token to create an instance with, given what the token file held:
/// its content when the file was there and of the right size, a blank
/// token otherwise.
pub open spec fn usable_token(stored: Option<Seq<u8>>) -> Seq<u8> {
    match stored {
        Some(bytes) => if bytes.len() == LAUNCH_TOKEN_SIZE {
            bytes
        } else {
            blank_token()
        },
        None => blank_token(),
    }
}

/// The bytes that an optional byte vector holds.
pub open spec fn stored_bytes(stored: Option<&Vec<u8>>) -> Option<Seq<u8>> {
    match stored {
        Some(bytes) => Some(bytes@),
        None => None,
    }
}

/// Chooses the token to create an instance with. `stored` is what was
/// read from the token file, `None` when there was no file to read.
pub fn launch_token(stored: Option<&Vec<u8>>) -> (token: LaunchToken)
    ensures
        token@ == usable_token(stored_bytes(stored)),
{
    let mut token = [0u8; 1024];
    assert(token@ =~= blank_token());
    match stored {
        Some(bytes) => {
            if bytes.len() == LAUNCH_TOKEN_SIZE {
                let mut i: usize = 0;
                while i < LAUNCH_TOKEN_SIZE
                    invariant
                        0 <= i <= LAUNCH_TOKEN_SIZE,
                        bytes@.len() == LAUNCH_TOKEN_SIZE,
                        forall|k: int| 0 <= k < i ==> token@[k] == bytes@[k],
                    decreases LAUNCH_TOKEN_SIZE - i,
                {
                    token[i] = bytes[i];
                    i = i + 1;
                }
                assert(token@ =~= bytes@);
            }
        },
        None => {},
    }
    token
}

/// Tells whether the token must be written back after a creation: when
/// there is a place to keep it and the platform changed it.
pub fn should_save_token(use_token: bool, launch_token_updated: i32) -> (save: bool)
    ensures
        save == (use_token && launch_token_updated != 0),
{
    use_token && launch_token_updated != 0
}

} // verus!
