//! The unsealing side: reading a blob, refusing what was not sealed as it
//! is presented, and releasing the record only when the platform's
//! authenticated decryption accepted it.
use vstd::prelude::*;
use vstd::bytes::{
    lemma_auto_spec_u16_to_from_le_bytes, lemma_auto_spec_u32_to_from_le_bytes,
    spec_u16_from_le_bytes, spec_u16_to_le_bytes, spec_u32_from_le_bytes, spec_u32_to_le_bytes,
    u16_from_le_bytes, u32_from_le_bytes,
};
use vstd::slice::{slice_subrange, slice_to_vec};
use crate::constants::RANDOM_RECORD_SIZE;
use crate::error::{status_error, BoundaryError, STATUS_MAC_MISMATCH, STATUS_SUCCESS};
use crate::gateway::InstanceHandle;
use crate::sealing::{
    blob_layout, bytes_of, parts_fit, policy_of_tag, policy_tag, seal_outcome, sealed_size,
    BlobParts, CipherParts, DisclosurePolicy, SealedBlob, SecretRecord, AAD_LEN_OFFSET, FIXED_OVERHEAD, HEADER_SIZE,
    IDENTITY_REFERENCE_OFFSET, IDENTITY_REFERENCE_SIZE, PAYLOAD_LEN_OFFSET, POLICY_TAG_SIZE,
    TAG_SIZE,
};

verus! {

/// The policy tag that a blob of at least header size carries.
pub open spec fn policy_tag_field(blob: Seq<u8>) -> u16 {
    spec_u16_from_le_bytes(blob.subrange(0, POLICY_TAG_SIZE as int))
}

/// The payload length that a blob of at least header size declares.
pub open spec fn payload_len_field(blob: Seq<u8>) -> nat {
    spec_u32_from_le_bytes(blob.subrange(PAYLOAD_LEN_OFFSET as int, AAD_LEN_OFFSET as int)) as nat
}

/// The length of additional authenticated data that a blob of at least
/// header size declares.
pub open spec fn aad_len_field(blob: Seq<u8>) -> nat {
    spec_u32_from_le_bytes(blob.subrange(AAD_LEN_OFFSET as int, HEADER_SIZE as int)) as nat
}

/// The parts of a blob, if the blob is the layout of any: it has room for
/// header and tag, its policy tag names a policy, and its length is what
/// its two length fields require.
pub open spec fn read_parts(blob: Seq<u8>) -> Option<BlobParts> {
    let payload_len = payload_len_field(blob);
    let aad_len = aad_len_field(blob);
    if blob.len() < FIXED_OVERHEAD {
        None
    } else if blob.len() != sealed_size(payload_len, aad_len) {
        None
    } else {
        match policy_of_tag(policy_tag_field(blob)) {
            None => None,
            Some(policy) => Some(
                BlobParts {
                    policy,
                    identity_reference: blob.subrange(
                        IDENTITY_REFERENCE_OFFSET as int,
                        PAYLOAD_LEN_OFFSET as int,
                    ),
                    ciphertext: blob.subrange(HEADER_SIZE as int, HEADER_SIZE + payload_len),
                    aad: blob.subrange(
                        HEADER_SIZE + payload_len,
                        HEADER_SIZE + payload_len + aad_len,
                    ),
                    tag: blob.subrange(
                        HEADER_SIZE + payload_len + aad_len,
                        blob.len() as int,
                    ),
                },
            ),
        }
    }
}

/// What the inspection of a blob answers before anything is decrypted.
///
/// A blob without room for header and tag is `InvalidParameter`. Any other
/// blob is refused with `IntegrityError` unless it is the layout of parts
/// that hold a record of `record_size` bytes and exactly the additional
/// authenticated data that the caller supplies. The answer for a blob
/// that passes is its parts: what the platform is asked to decrypt.
pub open spec fn inspection(blob: Seq<u8>, aad: Seq<u8>, record_size: nat) -> Result<
    BlobParts,
    BoundaryError,
> {
    if blob.len() < FIXED_OVERHEAD {
        Err(BoundaryError::InvalidParameter)
    } else {
        match read_parts(blob) {
            None => Err(BoundaryError::IntegrityError),
            Some(parts) => if parts.ciphertext.len() == record_size && parts.aad == aad {
                Ok(parts)
            } else {
                Err(BoundaryError::IntegrityError)
            },
        }
    }
}

/// What unsealing answers.
///
/// `status` and `plaintext` are what the platform's authenticated
/// decryption returned for the parts of the blob. A live instance is
/// required first, then the blob must pass the inspection. A failure of
/// the platform is reported as the error that its status stands for: a
/// failed authentication is `IntegrityError`. A plaintext that is not of
/// the record's size is `Unexpected`. Only then is the plaintext released.
pub open spec fn unseal_outcome(
    live: bool,
    blob: Seq<u8>,
    aad: Seq<u8>,
    record_size: nat,
    status: u32,
    plaintext: Seq<u8>,
) -> Result<Seq<u8>, BoundaryError> {
    if !live {
        Err(BoundaryError::NotInitialized)
    } else {
        match inspection(blob, aad, record_size) {
            Err(error) => Err(error),
            Ok(_) => if status != STATUS_SUCCESS {
                Err(status_error(status))
            } else if plaintext.len() != record_size {
                Err(BoundaryError::Unexpected)
            } else {
                Ok(plaintext)
            },
        }
    }
}

/// The parts of a blob that passed the inspection.
#[derive(Debug)]
pub struct SealedParts {
    /// The policy recorded in the header.
    pub policy: DisclosurePolicy,
    /// What the boundary needs to derive the sealing key again.
    pub identity_reference: Vec<u8>,
    /// The encrypted record.
    pub ciphertext: Vec<u8>,
    /// The additional authenticated data.
    pub aad: Vec<u8>,
    /// The integrity tag.
    pub tag: Vec<u8>,
}

impl View for SealedParts {
    type V = BlobParts;

    open spec fn view(&self) -> BlobParts {
        BlobParts {
            policy: self.policy,
            identity_reference: self.identity_reference@,
            ciphertext: self.ciphertext@,
            aad: self.aad@,
            tag: self.tag@,
        }
    }
}

/// The parts that a result holds, if it holds any.
pub open spec fn parts_of(result: Result<SealedParts, BoundaryError>) -> Result<
    BlobParts,
    BoundaryError,
> {
    match result {
        Ok(parts) => Ok(parts@),
        Err(error) => Err(error),
    }
}

/// Copies the bytes of `source` from `from` up to `to`.
fn copy_range(source: &Vec<u8>, from: usize, to: usize) -> (copy: Vec<u8>)
    requires
        from <= to <= source@.len(),
    ensures
        copy@ == source@.subrange(from as int, to as int),
{
    slice_to_vec(slice_subrange(source.as_slice(), from, to))
}

/// Tells whether two byte strings are the same.
pub fn same_bytes(a: &Vec<u8>, b: &Vec<u8>) -> (same: bool)
    ensures
        same == (a@ == b@),
{
    if a.len() != b.len() {
        return false;
    }
    let mut i: usize = 0;
    while i < a.len()
        invariant
            0 <= i <= a@.len(),
            a@.len() == b@.len(),
            forall|k: int| 0 <= k < i ==> a@[k] == b@[k],
        decreases a@.len() - i,
    {
        if a[i] != b[i] {
            return false;
        }
        i = i + 1;
    }
    assert(a@ =~= b@);
    true
}

/// Inspects a blob and hands out what the platform is to decrypt.
pub fn open_request(blob: &SealedBlob, aad: &Vec<u8>, record_size: u32) -> (request: Result<
    SealedParts,
    BoundaryError,
>)
    ensures
        parts_of(request) == inspection(blob@, aad@, record_size as nat),
{
    if blob.len() < FIXED_OVERHEAD {
        return Err(BoundaryError::InvalidParameter);
    }
    let tag_field = u16_from_le_bytes(slice_subrange(blob.as_slice(), 0, POLICY_TAG_SIZE));
    let payload_len = u32_from_le_bytes(
        slice_subrange(blob.as_slice(), PAYLOAD_LEN_OFFSET, AAD_LEN_OFFSET),
    );
    let aad_len = u32_from_le_bytes(slice_subrange(blob.as_slice(), AAD_LEN_OFFSET, HEADER_SIZE));
    if blob.len() as u64 != FIXED_OVERHEAD as u64 + payload_len as u64 + aad_len as u64 {
        return Err(BoundaryError::IntegrityError);
    }
    let policy = match DisclosurePolicy::from_tag(tag_field) {
        None => {
            return Err(BoundaryError::IntegrityError);
        },
        Some(policy) => policy,
    };
    let payload_end = HEADER_SIZE + payload_len as usize;
    let aad_end = payload_end + aad_len as usize;
    let stored_aad = copy_range(blob, payload_end, aad_end);
    if payload_len != record_size || !same_bytes(&stored_aad, aad) {
        return Err(BoundaryError::IntegrityError);
    }
    let parts = SealedParts {
        policy,
        identity_reference: copy_range(blob, IDENTITY_REFERENCE_OFFSET, PAYLOAD_LEN_OFFSET),
        ciphertext: copy_range(blob, HEADER_SIZE, payload_end),
        aad: stored_aad,
        tag: copy_range(blob, aad_end, blob.len()),
    };
    assert(parts@ =~= read_parts(blob@)->Some_0);
    Ok(parts)
}

/// Unseals a blob: refuses the call on a destroyed instance, inspects the
/// blob again, and releases the plaintext only if the platform's
/// authenticated decryption succeeded.
///
/// `status` and `plaintext` are the platform's answer to the request that
/// `open_request` made of the same blob. On every failure the plaintext is
/// dropped.
pub fn unseal(
    handle: &InstanceHandle,
    blob: &SealedBlob,
    aad: &Vec<u8>,
    record_size: u32,
    status: u32,
    plaintext: Vec<u8>,
) -> (record: Result<SecretRecord, BoundaryError>)
    ensures
        bytes_of(record) == unseal_outcome(
            handle.is_live(),
            blob@,
            aad@,
            record_size as nat,
            status,
            plaintext@,
        ),
        record matches Ok(bytes) ==> bytes@ == plaintext@ && bytes@.len() == record_size,
{
    if !handle.live() {
        return Err(BoundaryError::NotInitialized);
    }
    match open_request(blob, aad, record_size) {
        Err(error) => {
            return Err(error);
        },
        Ok(_) => {},
    }
    match BoundaryError::from_status(status) {
        Err(error) => {
            return Err(error);
        },
        Ok(()) => {},
    }
    if plaintext.len() != record_size as usize {
        return Err(BoundaryError::Unexpected);
    }
    Ok(plaintext)
}

/// Unseals a log that `create_sealeddata` produced: a random record
/// sealed without additional authenticated data.
pub fn verify_sealeddata(
    handle: &InstanceHandle,
    sealed_log: &SealedBlob,
    status: u32,
    plaintext: Vec<u8>,
) -> (record: Result<SecretRecord, BoundaryError>)
    ensures
        bytes_of(record) == unseal_outcome(
            handle.is_live(),
            sealed_log@,
            Seq::<u8>::empty(),
            RANDOM_RECORD_SIZE as nat,
            status,
            plaintext@,
        ),
        record matches Ok(bytes) ==> bytes@ == plaintext@ && bytes@.len() == RANDOM_RECORD_SIZE,
{
    let aad: Vec<u8> = Vec::new();
    assert(aad@ =~= Seq::<u8>::empty());
    unseal(handle, sealed_log, &aad, RANDOM_RECORD_SIZE as u32, status, plaintext)
}

/// Reading the layout of parts gives the parts back.
pub proof fn lemma_read_of_layout(parts: BlobParts)
    requires
        parts_fit(parts),
    ensures
        read_parts(blob_layout(parts)) == Some(parts),
{
    lemma_auto_spec_u16_to_from_le_bytes();
    lemma_auto_spec_u32_to_from_le_bytes();
    let blob = blob_layout(parts);
    let tag_bytes = spec_u16_to_le_bytes(policy_tag(parts.policy));
    let payload_bytes = spec_u32_to_le_bytes(parts.ciphertext.len() as u32);
    let aad_bytes = spec_u32_to_le_bytes(parts.aad.len() as u32);
    assert(blob.subrange(0, 2) =~= tag_bytes);
    assert(blob.subrange(514, 518) =~= payload_bytes);
    assert(blob.subrange(518, 522) =~= aad_bytes);
    let read = read_parts(blob)->Some_0;
    assert(read.identity_reference =~= parts.identity_reference);
    assert(read.ciphertext =~= parts.ciphertext);
    assert(read.aad =~= parts.aad);
    assert(read.tag =~= parts.tag);
}

/// A blob from which parts can be read is the layout of those parts.
pub proof fn lemma_layout_of_read(blob: Seq<u8>)
    requires
        read_parts(blob).is_some(),
    ensures
        parts_fit(read_parts(blob)->Some_0),
        blob_layout(read_parts(blob)->Some_0) == blob,
{
    lemma_auto_spec_u16_to_from_le_bytes();
    lemma_auto_spec_u32_to_from_le_bytes();
    let parts = read_parts(blob)->Some_0;
    let tag_field = policy_tag_field(blob);
    assert(policy_tag(parts.policy) == tag_field);
    assert(spec_u16_to_le_bytes(tag_field) == blob.subrange(0, 2));
    assert(spec_u32_to_le_bytes(parts.ciphertext.len() as u32) == blob.subrange(514, 518));
    assert(spec_u32_to_le_bytes(parts.aad.len() as u32) == blob.subrange(518, 522));
    assert(blob_layout(parts) =~= blob);
}

/// What was sealed passes the inspection, and the platform is asked to
/// decrypt exactly what it encrypted, under the policy and with the
/// additional authenticated data of the sealing. If the platform then
/// returns the record, unsealing releases that record.
pub proof fn lemma_round_trip(
    payload: Seq<u8>,
    aad: Seq<u8>,
    policy: DisclosurePolicy,
    cipher: CipherParts,
)
    requires
        sealed_size(payload.len(), aad.len()) <= u32::MAX,
        cipher.ciphertext@.len() == payload.len(),
        cipher.identity_reference@.len() == IDENTITY_REFERENCE_SIZE,
        cipher.tag@.len() == TAG_SIZE,
    ensures
        ({
            let size = sealed_size(payload.len(), aad.len()) as u32;
            let sealed = seal_outcome(true, payload, aad, policy, size, STATUS_SUCCESS, cipher);
            &&& sealed == Ok::<Seq<u8>, BoundaryError>(blob_layout(cipher.bound_to(policy, aad)))
            &&& sealed->Ok_0.len() == size
            &&& inspection(sealed->Ok_0, aad, payload.len()) == Ok::<BlobParts, BoundaryError>(
                cipher.bound_to(policy, aad),
            )
            &&& unseal_outcome(true, sealed->Ok_0, aad, payload.len(), STATUS_SUCCESS, payload)
                == Ok::<Seq<u8>, BoundaryError>(payload)
        }),
{
    lemma_auto_spec_u16_to_from_le_bytes();
    lemma_auto_spec_u32_to_from_le_bytes();
    lemma_read_of_layout(cipher.bound_to(policy, aad));
}

/// A blob sealed with some additional authenticated data is refused with
/// `IntegrityError` when it is presented with any other, whatever the
/// platform's decryption answers.
pub proof fn lemma_aad_binding(
    parts: BlobParts,
    other_aad: Seq<u8>,
    record_size: nat,
    status: u32,
    plaintext: Seq<u8>,
)
    requires
        parts_fit(parts),
        other_aad != parts.aad,
    ensures
        inspection(blob_layout(parts), other_aad, record_size) == Err::<BlobParts, BoundaryError>(
            BoundaryError::IntegrityError,
        ),
        unseal_outcome(true, blob_layout(parts), other_aad, record_size, status, plaintext)
            == Err::<Seq<u8>, BoundaryError>(BoundaryError::IntegrityError),
{
    lemma_auto_spec_u16_to_from_le_bytes();
    lemma_auto_spec_u32_to_from_le_bytes();
    lemma_read_of_layout(parts);
}

/// A blob that differs from a sealed blob of the same length never
/// reaches the platform as what was sealed: the inspection either refuses
/// it with `IntegrityError`, or asks the platform to decrypt parts other
/// than those that the platform produced.
pub proof fn lemma_tampering_is_noticed(parts: BlobParts, tampered: Seq<u8>)
    requires
        parts_fit(parts),
        tampered.len() == blob_layout(parts).len(),
        tampered != blob_layout(parts),
    ensures
        match inspection(tampered, parts.aad, parts.ciphertext.len()) {
            Ok(read) => read != parts && read.aad == parts.aad && read.ciphertext.len()
                == parts.ciphertext.len(),
            Err(error) => error == BoundaryError::IntegrityError,
        },
{
    lemma_auto_spec_u16_to_from_le_bytes();
    lemma_auto_spec_u32_to_from_le_bytes();
    if read_parts(tampered).is_some() {
        lemma_layout_of_read(tampered);
    }
}

/// Whatever the blob, a failed authentication inside the platform is
/// `IntegrityError`, and no failure of the platform releases a plaintext.
pub proof fn lemma_rejection_releases_nothing(
    blob: Seq<u8>,
    aad: Seq<u8>,
    record_size: nat,
    status: u32,
    plaintext: Seq<u8>,
)
    requires
        status != STATUS_SUCCESS,
    ensures
        unseal_outcome(true, blob, aad, record_size, status, plaintext).is_err(),
        inspection(blob, aad, record_size).is_ok() && status == STATUS_MAC_MISMATCH
            ==> unseal_outcome(true, blob, aad, record_size, status, plaintext) == Err::<
            Seq<u8>,
            BoundaryError,
        >(BoundaryError::IntegrityError),
{
}

/// On a destroyed instance sealing and unsealing answer `NotInitialized`,
/// whatever else they are given.
pub proof fn lemma_destroyed_instance_refuses(
    payload: Seq<u8>,
    blob: Seq<u8>,
    aad: Seq<u8>,
    policy: DisclosurePolicy,
    size: u32,
    status: u32,
    cipher: CipherParts,
)
    ensures
        seal_outcome(false, payload, aad, policy, size, status, cipher) == Err::<
            Seq<u8>,
            BoundaryError,
        >(BoundaryError::NotInitialized),
        unseal_outcome(false, blob, aad, size as nat, status, payload) == Err::<
            Seq<u8>,
            BoundaryError,
        >(BoundaryError::NotInitialized),
{
}

} // verus!
