//! The key-pair generator: secret scalars drawn from the boundary's random
//! source, and the public points that belong to them.
use vstd::prelude::*;
use crate::constants::MAX_KEYGEN_DRAWS;
use crate::error::BoundaryError;
use crate::gateway::InstanceHandle;
use crate::scalar::{is_valid_scalar, scalar_in_range};
use crate::sealing::SecretRecord;

verus! {

/// The uncompressed encoding (`0x04`, then X, then Y) of the public point
/// that secp256k1 multiplies out of a secret scalar.
pub uninterp spec fn public_point(secret: Seq<u8>) -> Seq<u8>;

/// Computes the public point of a secret scalar with
/// `secp256k1::SecretKey::from_secret_bytes`,
/// `secp256k1::PublicKey::from_secret_key` and
/// `secp256k1::PublicKey::serialize_uncompressed`.
///
/// Trusted: the scalar is accepted exactly when it is neither zero nor at
/// or above the order of the group, and the 65 bytes handed back depend on
/// the scalar alone.
#[verifier::external_body]
fn derive_public_point(secret: &[u8; 32]) -> (point: Option<[u8; 65]>)
    ensures
        point.is_some() == is_valid_scalar(secret@),
        point matches Some(bytes) ==> bytes@ == public_point(secret@),
{
    match secp256k1::SecretKey::from_secret_bytes(*secret) {
        Ok(key) => Some(secp256k1::PublicKey::from_secret_key(&key).serialize_uncompressed()),
        Err(_) => None,
    }
}

/// A public point in its uncompressed encoding.
#[derive(Clone, Copy, Debug)]
pub struct PublicKey {
    bytes: [u8; 65],
}

impl View for PublicKey {
    type V = Seq<u8>;

    closed spec fn view(&self) -> Seq<u8> {
        self.bytes@
    }
}

impl PublicKey {
    /// Takes 65 bytes as the encoding of a public point.
    pub fn from_bytes(bytes: [u8; 65]) -> (key: PublicKey)
        ensures
            key@ == bytes@,
    {
        PublicKey { bytes }
    }

    /// The 65 bytes of the encoding.
    pub fn to_bytes(&self) -> (bytes: [u8; 65])
        ensures
            bytes@ == self@,
    {
        self.bytes
    }

    /// The compressed encoding of the point: 33 bytes.
    pub fn to_compressed(&self) -> (bytes: [u8; 33])
        ensures
            bytes@ == compressed_point(self@),
    {
        let mut bytes = [0u8; 33];
        bytes[0] = if self.bytes[64] % 2 == 0 {
            0x02
        } else {
            0x03
        };
        let mut i: usize = 1;
        while i < 33
            invariant
                1 <= i <= 33,
                bytes@[0] == compressed_point(self.bytes@)[0],
                forall|k: int| 1 <= k < i ==> bytes@[k] == self.bytes@[k],
            decreases 33 - i,
        {
            bytes[i] = self.bytes[i];
            i = i + 1;
        }
        assert(bytes@ =~= compressed_point(self.bytes@));
        bytes
    }
}

/// The compressed encoding of a point given in its uncompressed encoding:
/// `0x02` when Y is even and `0x03` when it is odd, then X.
pub open spec fn compressed_point(point: Seq<u8>) -> Seq<u8> {
    seq![
        if point[64] % 2 == 0 {
            0x02u8
        } else {
            0x03u8
        },
    ] + point.subrange(1, 33)
}

/// A secret scalar with its public point. The secret is never handed out
/// as it is: what leaves the pair is the public point, or the secret as a
/// record for the sealing engine.
pub struct KeyPair {
    secret: [u8; 32],
    public: PublicKey,
}

impl KeyPair {
    /// The secret scalar, most significant byte first.
    pub closed spec fn secret_scalar(&self) -> Seq<u8> {
        self.secret@
    }

    /// The encoding of the public point.
    pub closed spec fn public_bytes(&self) -> Seq<u8> {
        self.public@
    }

    #[verifier::type_invariant]
    spec fn well_formed(&self) -> bool {
        &&& is_valid_scalar(self.secret@)
        &&& self.public@ == public_point(self.secret@)
    }

    /// Makes the key pair of a secret scalar, if the scalar is valid.
    pub fn from_secret(secret: [u8; 32]) -> (pair: Option<KeyPair>)
        ensures
            pair.is_some() == is_valid_scalar(secret@),
            pair matches Some(made) ==> made.secret_scalar() == secret@ && made.public_bytes()
                == public_point(secret@),
    {
        if !scalar_in_range(&secret) {
            return None;
        }
        match derive_public_point(&secret) {
            Some(bytes) => Some(KeyPair { secret, public: PublicKey::from_bytes(bytes) }),
            None => None,
        }
    }

    /// The public point of the pair.
    pub fn public(&self) -> (key: PublicKey)
        ensures
            key@ == self.public_bytes(),
            key@ == public_point(self.secret_scalar()),
            is_valid_scalar(self.secret_scalar()),
    {
        proof {
            use_type_invariant(self);
        }
        self.public
    }

    /// The secret scalar as a record of 32 bytes, for sealing inside the
    /// boundary.
    pub fn secret_record(&self) -> (record: SecretRecord)
        ensures
            record@ == self.secret_scalar(),
            is_valid_scalar(record@),
    {
        proof {
            use_type_invariant(self);
        }
        let mut record: Vec<u8> = Vec::new();
        let mut i: usize = 0;
        while i < 32
            invariant
                0 <= i <= 32,
                record@ == self.secret@.take(i as int),
            decreases 32 - i,
        {
            record.push(self.secret[i]);
            assert(self.secret@.take(i + 1) =~= self.secret@.take(i as int).push(
                self.secret@[i as int],
            ));
            i = i + 1;
        }
        assert(self.secret@.take(32) =~= self.secret@);
        record
    }
}

/// How many of the draws a key generation looks at.
pub open spec fn draws_considered(draws: Seq<[u8; 32]>) -> int {
    if draws.len() < MAX_KEYGEN_DRAWS {
        draws.len() as int
    } else {
        MAX_KEYGEN_DRAWS as int
    }
}

/// The index of the first valid scalar among the draws considered, looking
/// from `from` on.
pub open spec fn first_valid_draw(draws: Seq<[u8; 32]>, from: int) -> Option<int>
    decreases draws_considered(draws) - from,
{
    if from < 0 || from >= draws_considered(draws) {
        None
    } else if is_valid_scalar(draws[from]@) {
        Some(from)
    } else {
        first_valid_draw(draws, from + 1)
    }
}

/// What key generation answers: on a live instance, the public point of
/// the first valid scalar among the draws considered, and `Unexpected` if
/// there is none.
pub open spec fn keygen_outcome(live: bool, draws: Seq<[u8; 32]>) -> Result<
    Seq<u8>,
    BoundaryError,
> {
    if !live {
        Err(BoundaryError::NotInitialized)
    } else {
        match first_valid_draw(draws, 0) {
            Some(index) => Ok(public_point(draws[index]@)),
            None => Err(BoundaryError::Unexpected),
        }
    }
}

/// The point that a result holds, if it holds one.
pub open spec fn point_of(result: Result<PublicKey, BoundaryError>) -> Result<
    Seq<u8>,
    BoundaryError,
> {
    match result {
        Ok(key) => Ok(key@),
        Err(error) => Err(error),
    }
}

/// Generates a key pair from draws of the boundary's random source and
/// hands out its public point. The secret scalar is dropped with the
/// pair.
///
/// `draws` holds what the random source returned, in the order drawn. At
/// most `MAX_KEYGEN_DRAWS` of them are looked at.
pub fn generate_keypair(handle: &InstanceHandle, draws: &Vec<[u8; 32]>) -> (key: Result<
    PublicKey,
    BoundaryError,
>)
    ensures
        point_of(key) == keygen_outcome(handle.is_live(), draws@),
{
    if !handle.live() {
        return Err(BoundaryError::NotInitialized);
    }
    let limit = if draws.len() < MAX_KEYGEN_DRAWS {
        draws.len()
    } else {
        MAX_KEYGEN_DRAWS
    };
    let mut i: usize = 0;
    while i < limit
        invariant
            0 <= i <= limit,
            handle.is_live(),
            limit == draws_considered(draws@),
            first_valid_draw(draws@, 0) == first_valid_draw(draws@, i as int),
        decreases limit - i,
    {
        match KeyPair::from_secret(draws[i]) {
            Some(pair) => {
                assert(first_valid_draw(draws@, i as int) == Some(i as int));
                return Ok(pair.public());
            },
            None => {
                assert(first_valid_draw(draws@, i as int) == first_valid_draw(draws@, i + 1));
            },
        }
        i = i + 1;
    }
    Err(BoundaryError::Unexpected)
}

/// Every generated key belongs to a secret scalar in
/// `[1, curve_order() - 1]`: the first such scalar among the draws
/// considered.
pub proof fn lemma_generated_key_has_valid_secret(draws: Seq<[u8; 32]>)
    ensures
        match first_valid_draw(draws, 0) {
            Some(index) => {
                &&& 0 <= index < draws_considered(draws)
                &&& is_valid_scalar(draws[index]@)
                &&& forall|k: int| 0 <= k < index ==> !is_valid_scalar(#[trigger] draws[k]@)
                &&& keygen_outcome(true, draws) == Ok::<Seq<u8>, BoundaryError>(
                    public_point(draws[index]@),
                )
            },
            None => {
                &&& forall|k: int|
                    0 <= k < draws_considered(draws) ==> !is_valid_scalar(#[trigger] draws[k]@)
                &&& keygen_outcome(true, draws) == Err::<Seq<u8>, BoundaryError>(
                    BoundaryError::Unexpected,
                )
            },
        },
{
    lemma_first_valid_draw_from(draws, 0);
}

/// What `first_valid_draw` finds, looking from `from` on.
proof fn lemma_first_valid_draw_from(draws: Seq<[u8; 32]>, from: int)
    requires
        0 <= from,
    ensures
        match first_valid_draw(draws, from) {
            Some(index) => {
                &&& from <= index < draws_considered(draws)
                &&& is_valid_scalar(draws[index]@)
                &&& forall|k: int| from <= k < index ==> !is_valid_scalar(#[trigger] draws[k]@)
            },
            None => forall|k: int|
                from <= k < draws_considered(draws) ==> !is_valid_scalar(#[trigger] draws[k]@),
        },
    decreases draws_considered(draws) - from,
{
    if from < draws_considered(draws) && !is_valid_scalar(draws[from]@) {
        lemma_first_valid_draw_from(draws, from + 1);
    }
}

/// On a destroyed instance key generation answers `NotInitialized`,
/// whatever was drawn.
pub proof fn lemma_destroyed_instance_generates_nothing(draws: Seq<[u8; 32]>)
    ensures
        keygen_outcome(false, draws) == Err::<Seq<u8>, BoundaryError>(
            BoundaryError::NotInitialized,
        ),
{
}

} // verus!
