use enclave_keygen::error::{
    check_call_status, AppError, BoundaryError, STATUS_INVALID_INSTANCE, STATUS_INVALID_PARAMETER,
    STATUS_MAC_MISMATCH, STATUS_OUT_OF_MEMORY, STATUS_SUCCESS, STATUS_UNEXPECTED,
};
use enclave_keygen::gateway::{describe_failure, InstanceHandle, Operation};

#[test]
fn creation_succeeds_on_success_status() {
    let handle = InstanceHandle::create(STATUS_SUCCESS, 42).unwrap();
    assert!(handle.live());
    assert_eq!(handle.id(), Ok(42));
}

#[test]
fn any_failed_creation_is_unexpected() {
    for status in [STATUS_UNEXPECTED, STATUS_INVALID_PARAMETER, 0x2001, 0x2003, 0x2006, u32::MAX] {
        assert_eq!(InstanceHandle::create(status, 42).err(), Some(BoundaryError::Unexpected));
    }
}

#[test]
fn a_handle_is_destroyed_once() {
    let mut handle = InstanceHandle::create(STATUS_SUCCESS, 1).unwrap();
    assert_eq!(handle.destroy(), Ok(()));
    assert!(!handle.live());
    assert_eq!(handle.destroy(), Err(BoundaryError::NotInitialized));
    assert_eq!(handle.id(), Err(BoundaryError::NotInitialized));
}

#[test]
fn calls_need_the_exact_buffer_size() {
    let handle = InstanceHandle::create(STATUS_SUCCESS, 1).unwrap();
    assert_eq!(handle.call(Operation::GenerateKeypair, 65), Ok(()));
    assert_eq!(handle.call(Operation::GenerateKeypair, 64), Err(BoundaryError::InvalidParameter));
    assert_eq!(handle.call(Operation::GenerateKeypair, 66), Err(BoundaryError::InvalidParameter));
    let seal = Operation::Seal { payload_len: 16, aad_len: 0 };
    assert_eq!(handle.call(seal, 554), Ok(()));
    assert_eq!(handle.call(seal, 553), Err(BoundaryError::InvalidParameter));
    assert_eq!(handle.call(seal, 1024), Err(BoundaryError::InvalidParameter));
    let unseal = Operation::Unseal { record_size: 16 };
    assert_eq!(handle.call(unseal, 16), Ok(()));
    assert_eq!(handle.call(unseal, 32), Err(BoundaryError::InvalidParameter));
}

#[test]
fn a_seal_too_large_for_any_buffer_is_refused() {
    let handle = InstanceHandle::create(STATUS_SUCCESS, 1).unwrap();
    let seal = Operation::Seal { payload_len: u32::MAX, aad_len: u32::MAX };
    assert_eq!(handle.call(seal, u32::MAX), Err(BoundaryError::InvalidParameter));
    assert_eq!(handle.call(seal, 536), Err(BoundaryError::InvalidParameter));
}

#[test]
fn no_call_after_destroy() {
    let mut handle = InstanceHandle::create(STATUS_SUCCESS, 1).unwrap();
    handle.destroy().unwrap();
    assert_eq!(handle.call(Operation::GenerateKeypair, 65), Err(BoundaryError::NotInitialized));
    assert_eq!(
        handle.call(Operation::Seal { payload_len: 16, aad_len: 0 }, 554),
        Err(BoundaryError::NotInitialized)
    );
    assert_eq!(
        handle.call(Operation::Unseal { record_size: 16 }, 16),
        Err(BoundaryError::NotInitialized)
    );
    // the wrong size does not change the answer
    assert_eq!(handle.call(Operation::GenerateKeypair, 1), Err(BoundaryError::NotInitialized));
}

#[test]
fn status_codes_are_read_by_kind() {
    assert_eq!(BoundaryError::from_status(STATUS_SUCCESS), Ok(()));
    assert_eq!(BoundaryError::from_status(0x0001), Err(BoundaryError::Unexpected));
    assert_eq!(BoundaryError::from_status(0x0002), Err(BoundaryError::InvalidParameter));
    assert_eq!(BoundaryError::from_status(0x0003), Err(BoundaryError::OutOfMemory));
    assert_eq!(BoundaryError::from_status(0x2002), Err(BoundaryError::NotInitialized));
    assert_eq!(BoundaryError::from_status(0x3001), Err(BoundaryError::IntegrityError));
    assert_eq!(BoundaryError::from_status(0x0004), Err(BoundaryError::Unexpected));
    assert_eq!(BoundaryError::from_status(0x4001), Err(BoundaryError::Unexpected));
}

#[test]
fn every_error_has_a_status_that_reads_back() {
    let kinds = [
        (BoundaryError::Unexpected, STATUS_UNEXPECTED),
        (BoundaryError::InvalidParameter, STATUS_INVALID_PARAMETER),
        (BoundaryError::IntegrityError, STATUS_MAC_MISMATCH),
        (BoundaryError::NotInitialized, STATUS_INVALID_INSTANCE),
        (BoundaryError::OutOfMemory, STATUS_OUT_OF_MEMORY),
    ];
    for (kind, status) in kinds {
        assert_eq!(kind.status(), status);
        assert_eq!(BoundaryError::from_status(status), Err(kind));
    }
}

#[test]
fn both_status_codes_of_a_call_are_checked() {
    assert_eq!(check_call_status(STATUS_SUCCESS, STATUS_SUCCESS), Ok(()));
    // the crossing succeeded, the operation did not
    assert_eq!(
        check_call_status(STATUS_SUCCESS, STATUS_MAC_MISMATCH),
        Err(BoundaryError::IntegrityError)
    );
    assert_eq!(
        check_call_status(STATUS_SUCCESS, STATUS_UNEXPECTED),
        Err(BoundaryError::Unexpected)
    );
    // the crossing failed: its error wins
    assert_eq!(
        check_call_status(STATUS_INVALID_INSTANCE, STATUS_SUCCESS),
        Err(BoundaryError::NotInitialized)
    );
    assert_eq!(
        check_call_status(STATUS_OUT_OF_MEMORY, STATUS_MAC_MISMATCH),
        Err(BoundaryError::OutOfMemory)
    );
}

#[test]
fn error_kinds_compare_by_kind() {
    assert_ne!(BoundaryError::Unexpected, BoundaryError::IntegrityError);
    assert_ne!(AppError::EmptyHex, AppError::InvalidHexDigit);
    assert_eq!(format!("{:?}", BoundaryError::NotInitialized), "NotInitialized");
}

#[test]
fn a_failure_is_worded_with_operation_and_buffer() {
    let seal = Operation::Seal { payload_len: 16, aad_len: 0 };
    let unseal = Operation::Unseal { record_size: 16 };
    assert_eq!(
        describe_failure(seal, BoundaryError::InvalidParameter),
        "seal: wrong size of the buffer for the sealed blob"
    );
    assert_eq!(
        describe_failure(seal, BoundaryError::OutOfMemory),
        "seal: no room in the buffer for the sealed blob"
    );
    assert_eq!(
        describe_failure(Operation::GenerateKeypair, BoundaryError::InvalidParameter),
        "generate_keypair: wrong size of the buffer for the public key"
    );
    assert_eq!(
        describe_failure(unseal, BoundaryError::InvalidParameter),
        "unseal: wrong size of the buffer for the sealed blob or record"
    );
    assert_eq!(
        describe_failure(unseal, BoundaryError::IntegrityError),
        "unseal: the sealed blob did not verify"
    );
    assert_eq!(
        describe_failure(unseal, BoundaryError::NotInitialized),
        "unseal: the instance is destroyed or was never created"
    );
    assert_eq!(
        describe_failure(Operation::GenerateKeypair, BoundaryError::Unexpected),
        "generate_keypair: internal failure of the boundary"
    );
}
