use enclave_keygen::constants::LAUNCH_TOKEN_SIZE;
use enclave_keygen::token::{launch_token, should_save_token};

#[test]
fn a_missing_token_file_gives_a_blank_token() {
    assert_eq!(launch_token(None), [0u8; 1024]);
}

#[test]
fn a_token_of_the_right_size_is_used() {
    let stored: Vec<u8> = (0..LAUNCH_TOKEN_SIZE).map(|i| (i % 251) as u8).collect();
    let token = launch_token(Some(&stored));
    assert_eq!(token.to_vec(), stored);
}

#[test]
fn a_damaged_token_gives_a_blank_token() {
    for len in [0usize, 1, 1023, 1025, 4096] {
        let stored = vec![0xEEu8; len];
        assert_eq!(launch_token(Some(&stored)), [0u8; 1024]);
    }
}

#[test]
fn the_token_is_saved_only_when_kept_and_changed() {
    assert!(should_save_token(true, 1));
    assert!(should_save_token(true, -1));
    assert!(!should_save_token(true, 0));
    assert!(!should_save_token(false, 1));
    assert!(!should_save_token(false, 0));
}
