//! The sealing engine: the size of a sealed blob, its layout, and the
//! framing of what the platform's authenticated encryption produced.
//!
//! A sealed blob is laid out as
//!
//! ```text
//! policy tag (2, little endian) | identity reference (512)
//!   | payload length (4, little endian) | aad length (4, little endian)
//!   | ciphertext | additional authenticated data | integrity tag (16)
//! ```
use vstd::prelude::*;
use vstd::bytes::{
    spec_u16_to_le_bytes, spec_u32_to_le_bytes, u16_to_le_bytes, u32_to_le_bytes,
};
use crate::constants::RANDOM_RECORD_SIZE;
use crate::error::{status_error, BoundaryError, STATUS_SUCCESS};
use crate::gateway::InstanceHandle;

verus! {

/// Width in bytes of the policy tag.
pub const POLICY_TAG_SIZE: usize = 2;

/// Width in bytes of the identity reference: room for the key request
/// from which the platform derives the sealing key again.
pub const IDENTITY_REFERENCE_SIZE: usize = 512;

/// Width in bytes of each of the two length fields.
pub const LENGTH_FIELD_SIZE: usize = 4;

/// Where the identity reference starts in a blob.
pub const IDENTITY_REFERENCE_OFFSET: usize = 2;

/// Where the payload length starts in a blob.
pub const PAYLOAD_LEN_OFFSET: usize = 514;

/// Where the length of the additional authenticated data starts in a
/// blob.
pub const AAD_LEN_OFFSET: usize = 518;

/// Width in bytes of the header: policy tag, identity reference, payload
/// length, length of the additional authenticated data.
pub const HEADER_SIZE: usize = 522;

/// Width in bytes of the integrity tag.
pub const TAG_SIZE: usize = 16;

/// Bytes of a blob that are neither ciphertext nor additional
/// authenticated data: header and integrity tag.
pub const FIXED_OVERHEAD: usize = 538;

/// The policy tag of `ExactIdentity`.
pub const POLICY_TAG_EXACT: u16 = 1;

/// The policy tag of `AuthorityIdentity`.
pub const POLICY_TAG_AUTHORITY: u16 = 2;

/// A record to seal: a plaintext of a size that is fixed for its kind.
pub type SecretRecord = Vec<u8>;

/// A sealed record: opaque bytes, owned by the host once they are made.
pub type SealedBlob = Vec<u8>;

/// Which future identities of the boundary may unseal a blob.
#[derive(Clone, Copy, Debug, PartialEq, Eq, Structural)]
pub enum DisclosurePolicy {
    /// Only code that is bit for bit the code that sealed.
    ExactIdentity,
    /// Any code signed by the authority that signed the code that sealed.
    AuthorityIdentity,
}

/// The tag that records a policy in a header.
pub open spec fn policy_tag(policy: DisclosurePolicy) -> u16 {
    match policy {
        DisclosurePolicy::ExactIdentity => POLICY_TAG_EXACT,
        DisclosurePolicy::AuthorityIdentity => POLICY_TAG_AUTHORITY,
    }
}

/// The policy that a tag records, if it records one.
pub open spec fn policy_of_tag(tag: u16) -> Option<DisclosurePolicy> {
    if tag == POLICY_TAG_EXACT {
        Some(DisclosurePolicy::ExactIdentity)
    } else if tag == POLICY_TAG_AUTHORITY {
        Some(DisclosurePolicy::AuthorityIdentity)
    } else {
        None
    }
}

impl DisclosurePolicy {
    /// The tag that records this policy.
    pub fn tag(&self) -> (tag: u16)
        ensures
            tag == policy_tag(*self),
            policy_of_tag(tag) == Some(*self),
    {
        match self {
            DisclosurePolicy::ExactIdentity => POLICY_TAG_EXACT,
            DisclosurePolicy::AuthorityIdentity => POLICY_TAG_AUTHORITY,
        }
    }

    /// Reads a tag.
    pub fn from_tag(tag: u16) -> (policy: Option<DisclosurePolicy>)
        ensures
            policy == policy_of_tag(tag),
    {
        if tag == POLICY_TAG_EXACT {
            Some(DisclosurePolicy::ExactIdentity)
        } else if tag == POLICY_TAG_AUTHORITY {
            Some(DisclosurePolicy::AuthorityIdentity)
        } else {
            None
        }
    }
}

/// The size of the blob that seals `payload_len` bytes with `aad_len`
/// bytes of additional authenticated data.
pub open spec fn sealed_size(payload_len: nat, aad_len: nat) -> nat {
    FIXED_OVERHEAD as nat + payload_len + aad_len
}

/// Computes the size that a sealed blob will have, from the two lengths
/// alone.
pub fn calc_sealed_size(payload_len: u32, aad_len: u32) -> (size: u64)
    ensures
        size == sealed_size(payload_len as nat, aad_len as nat),
{
    FIXED_OVERHEAD as u64 + payload_len as u64 + aad_len as u64
}

/// The size of a sealed blob grows strictly with the payload length and
/// strictly with the length of the additional authenticated data.
pub proof fn lemma_sealed_size_strictly_increasing(
    payload_len: nat,
    aad_len: nat,
    longer_payload: nat,
    longer_aad: nat,
)
    ensures
        payload_len < longer_payload ==> sealed_size(payload_len, aad_len) < sealed_size(
            longer_payload,
            aad_len,
        ),
        aad_len < longer_aad ==> sealed_size(payload_len, aad_len) < sealed_size(
            payload_len,
            longer_aad,
        ),
{
}

/// What a blob is made of.
pub ghost struct BlobParts {
    /// The policy fixed at seal time.
    pub policy: DisclosurePolicy,
    /// What the boundary needs to derive the sealing key again.
    pub identity_reference: Seq<u8>,
    /// The encrypted record.
    pub ciphertext: Seq<u8>,
    /// The additional authenticated data, in the clear.
    pub aad: Seq<u8>,
    /// The integrity tag.
    pub tag: Seq<u8>,
}

/// Parts that a blob can hold: fixed-width fields of the right width and
/// lengths that fit their fields.
pub open spec fn parts_fit(parts: BlobParts) -> bool {
    &&& parts.identity_reference.len() == IDENTITY_REFERENCE_SIZE
    &&& parts.tag.len() == TAG_SIZE
    &&& parts.ciphertext.len() <= u32::MAX
    &&& parts.aad.len() <= u32::MAX
}

/// The bytes of the blob made of `parts`.
pub open spec fn blob_layout(parts: BlobParts) -> Seq<u8> {
    spec_u16_to_le_bytes(policy_tag(parts.policy)) + parts.identity_reference
        + spec_u32_to_le_bytes(parts.ciphertext.len() as u32) + spec_u32_to_le_bytes(
        parts.aad.len() as u32,
    ) + parts.ciphertext + parts.aad + parts.tag
}

/// What the platform's authenticated encryption hands back for one record.
#[derive(Debug)]
pub struct CipherParts {
    /// What the boundary needs to derive the sealing key again.
    pub identity_reference: Vec<u8>,
    /// The encrypted record.
    pub ciphertext: Vec<u8>,
    /// The integrity tag.
    pub tag: Vec<u8>,
}

impl CipherParts {
    /// The parts of the blob that binds this ciphertext to a policy and to
    /// additional authenticated data.
    pub open spec fn bound_to(&self, policy: DisclosurePolicy, aad: Seq<u8>) -> BlobParts {
        BlobParts {
            policy,
            identity_reference: self.identity_reference@,
            ciphertext: self.ciphertext@,
            aad,
            tag: self.tag@,
        }
    }
}

/// What sealing answers.
///
/// `live` tells whether the instance is alive, `out_size` is the size of
/// the caller's destination buffer, and `status` and `cipher` are what the
/// platform's authenticated encryption returned for the record.
/// A live instance is required first. Then the lengths must fit their
/// fields, and the destination buffer must have exactly the sealed size:
/// too small is `OutOfMemory`, too large is `InvalidParameter`. Then a
/// failure of the platform is reported as the error that its status stands
/// for. An output of the platform with a field of the wrong width is
/// `Unexpected`. Otherwise the blob is the layout of the parts.
pub open spec fn seal_outcome(
    live: bool,
    payload: Seq<u8>,
    aad: Seq<u8>,
    policy: DisclosurePolicy,
    out_size: u32,
    status: u32,
    cipher: CipherParts,
) -> Result<Seq<u8>, BoundaryError> {
    if !live {
        Err(BoundaryError::NotInitialized)
    } else if payload.len() > u32::MAX || aad.len() > u32::MAX {
        Err(BoundaryError::InvalidParameter)
    } else if (out_size as nat) < sealed_size(payload.len(), aad.len()) {
        Err(BoundaryError::OutOfMemory)
    } else if (out_size as nat) > sealed_size(payload.len(), aad.len()) {
        Err(BoundaryError::InvalidParameter)
    } else if status != STATUS_SUCCESS {
        Err(status_error(status))
    } else if cipher.ciphertext@.len() != payload.len() || !parts_fit(cipher.bound_to(policy, aad)) {
        Err(BoundaryError::Unexpected)
    } else {
        Ok(blob_layout(cipher.bound_to(policy, aad)))
    }
}

/// The bytes that a result holds, if it holds any.
pub open spec fn bytes_of(result: Result<Vec<u8>, BoundaryError>) -> Result<
    Seq<u8>,
    BoundaryError,
> {
    match result {
        Ok(bytes) => Ok(bytes@),
        Err(error) => Err(error),
    }
}

/// Appends `source` to `target`.
pub fn append_bytes(target: &mut Vec<u8>, source: &Vec<u8>)
    ensures
        final(target)@ == old(target)@ + source@,
{
    let mut i: usize = 0;
    while i < source.len()
        invariant
            0 <= i <= source@.len(),
            target@ == old(target)@ + source@.take(i as int),
        decreases source@.len() - i,
    {
        target.push(source[i]);
        assert(source@.take(i + 1) =~= source@.take(i as int).push(source@[i as int]));
        i = i + 1;
    }
    assert(source@.take(source@.len() as int) =~= source@);
}

/// Lays out a blob from its parts.
fn frame(policy: DisclosurePolicy, aad: &Vec<u8>, cipher: &CipherParts) -> (blob: Vec<u8>)
    requires
        parts_fit(cipher.bound_to(policy, aad@)),
    ensures
        blob@ == blob_layout(cipher.bound_to(policy, aad@)),
        blob@.len() == sealed_size(cipher.ciphertext@.len(), aad@.len()),
{
    let mut blob = u16_to_le_bytes(policy.tag());
    append_bytes(&mut blob, &cipher.identity_reference);
    let payload_len = u32_to_le_bytes(cipher.ciphertext.len() as u32);
    append_bytes(&mut blob, &payload_len);
    let aad_len = u32_to_le_bytes(aad.len() as u32);
    append_bytes(&mut blob, &aad_len);
    append_bytes(&mut blob, &cipher.ciphertext);
    append_bytes(&mut blob, aad);
    append_bytes(&mut blob, &cipher.tag);
    blob
}

/// Seals a record: checks the call once more inside the boundary and
/// frames what the platform's authenticated encryption returned.
///
/// `status` and `cipher` are the platform's answer to the request to
/// encrypt `payload` under the sealing key of `policy`, with `aad` bound
/// in. The answer is the blob, or the reason for which there is none.
pub fn seal(
    handle: &InstanceHandle,
    payload: &SecretRecord,
    aad: &Vec<u8>,
    policy: DisclosurePolicy,
    out_size: u32,
    status: u32,
    cipher: &CipherParts,
) -> (blob: Result<SealedBlob, BoundaryError>)
    ensures
        bytes_of(blob) == seal_outcome(
            handle.is_live(),
            payload@,
            aad@,
            policy,
            out_size,
            status,
            *cipher,
        ),
        blob matches Ok(bytes) ==> bytes@.len() == out_size,
{
    if !handle.live() {
        return Err(BoundaryError::NotInitialized);
    }
    if payload.len() > u32::MAX as usize || aad.len() > u32::MAX as usize {
        return Err(BoundaryError::InvalidParameter);
    }
    let needed = calc_sealed_size(payload.len() as u32, aad.len() as u32);
    if (out_size as u64) < needed {
        return Err(BoundaryError::OutOfMemory);
    }
    if (out_size as u64) > needed {
        return Err(BoundaryError::InvalidParameter);
    }
    match BoundaryError::from_status(status) {
        Err(error) => {
            return Err(error);
        },
        Ok(()) => {},
    }
    if cipher.ciphertext.len() != payload.len() || cipher.identity_reference.len()
        != IDENTITY_REFERENCE_SIZE || cipher.tag.len() != TAG_SIZE {
        return Err(BoundaryError::Unexpected);
    }
    Ok(frame(policy, aad, cipher))
}

/// What sealing a fresh random record answers.
///
/// `record` is the draw from the boundary's random source, `None` when the
/// source failed, which is `Unexpected`. The record is sealed without
/// additional authenticated data, for any code of the same authority.
pub open spec fn create_outcome(
    live: bool,
    record: Option<[u8; 16]>,
    sealed_log_size: u32,
    status: u32,
    cipher: CipherParts,
) -> Result<Seq<u8>, BoundaryError> {
    if !live {
        Err(BoundaryError::NotInitialized)
    } else {
        match record {
            None => Err(BoundaryError::Unexpected),
            Some(bytes) => seal_outcome(
                live,
                bytes@,
                Seq::<u8>::empty(),
                DisclosurePolicy::AuthorityIdentity,
                sealed_log_size,
                status,
                cipher,
            ),
        }
    }
}

/// Seals a fresh random record into a log of `sealed_log_size` bytes.
pub fn create_sealeddata(
    handle: &InstanceHandle,
    record: Option<[u8; 16]>,
    sealed_log_size: u32,
    status: u32,
    cipher: &CipherParts,
) -> (sealed_log: Result<SealedBlob, BoundaryError>)
    ensures
        bytes_of(sealed_log) == create_outcome(
            handle.is_live(),
            record,
            sealed_log_size,
            status,
            *cipher,
        ),
        sealed_log matches Ok(bytes) ==> bytes@.len() == sealed_log_size,
{
    if !handle.live() {
        return Err(BoundaryError::NotInitialized);
    }
    match record {
        None => Err(BoundaryError::Unexpected),
        Some(bytes) => {
            let mut payload: Vec<u8> = Vec::new();
            let mut i: usize = 0;
            while i < RANDOM_RECORD_SIZE
                invariant
                    0 <= i <= RANDOM_RECORD_SIZE,
                    payload@ == bytes@.take(i as int),
                decreases RANDOM_RECORD_SIZE - i,
            {
                payload.push(bytes[i]);
                assert(bytes@.take(i + 1) =~= bytes@.take(i as int).push(bytes@[i as int]));
                i = i + 1;
            }
            assert(bytes@.take(16) =~= bytes@);
            let aad: Vec<u8> = Vec::new();
            assert(aad@ =~= Seq::<u8>::empty());
            seal(
                handle,
                &payload,
                &aad,
                DisclosurePolicy::AuthorityIdentity,
                sealed_log_size,
                status,
                cipher,
            )
        },
    }
}

} // verus!
