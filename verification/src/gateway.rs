//! The gateway: the one owner of a trusted-execution instance, and the
//! checks that every call passes before it crosses the boundary.
use vstd::prelude::*;
use vstd::string::StringExecFns;
use crate::constants::PUBLIC_KEY_SIZE;
use crate::error::{BoundaryError, STATUS_SUCCESS};
use crate::sealing::{calc_sealed_size, sealed_size};

verus! {

/// A request that may cross the boundary, with the lengths that decide the
/// size of its result.
#[derive(Clone, Copy, Debug, PartialEq, Eq, Structural)]
pub enum Operation {
    /// Generate a key pair and hand out its public point.
    GenerateKeypair,
    /// Seal a record of `payload_len` bytes with `aad_len` bytes of
    /// additional authenticated data.
    Seal { payload_len: u32, aad_len: u32 },
    /// Unseal a blob into a record of `record_size` bytes.
    Unseal { record_size: u32 },
}

/// The size that the destination buffer of an operation must have.
pub open spec fn required_output_size(operation: Operation) -> nat {
    match operation {
        Operation::GenerateKeypair => PUBLIC_KEY_SIZE as nat,
        Operation::Seal { payload_len, aad_len } => sealed_size(payload_len as nat, aad_len as nat),
        Operation::Unseal { record_size } => record_size as nat,
    }
}

/// What the gateway answers to a call before it crosses: a destroyed
/// instance takes no call, and the destination buffer must have exactly
/// the required size.
pub open spec fn admission(live: bool, operation: Operation, out_size: u32) -> Result<
    (),
    BoundaryError,
> {
    if !live {
        Err(BoundaryError::NotInitialized)
    } else if out_size as nat != required_output_size(operation) {
        Err(BoundaryError::InvalidParameter)
    } else {
        Ok(())
    }
}

/// Ownership of one trusted-execution instance.
///
/// The handle is the only holder of the instance identifier. Every
/// operation borrows the handle for the length of one call.
#[derive(Debug)]
pub struct InstanceHandle {
    id: u64,
    live: bool,
}

impl InstanceHandle {
    /// Whether the instance has been created and not yet destroyed.
    pub closed spec fn is_live(&self) -> bool {
        self.live
    }

    /// The identifier that the platform gave the instance.
    pub closed spec fn instance_id(&self) -> u64 {
        self.id
    }

    /// Takes ownership of an instance that the platform has just tried to
    /// create. `status` is the platform's answer and `id` the identifier
    /// it assigned. Any failure of the creation is `Unexpected`.
    pub fn create(status: u32, id: u64) -> (created: Result<InstanceHandle, BoundaryError>)
        ensures
            status == STATUS_SUCCESS ==> created.is_ok(),
            status != STATUS_SUCCESS ==> created == Err::<InstanceHandle, BoundaryError>(
                BoundaryError::Unexpected,
            ),
            created matches Ok(handle) ==> handle.is_live() && handle.instance_id() == id,
    {
        if status == STATUS_SUCCESS {
            Ok(InstanceHandle { id, live: true })
        } else {
            Err(BoundaryError::Unexpected)
        }
    }

    /// Tells whether calls on this handle can still cross the boundary.
    pub fn live(&self) -> (live: bool)
        ensures
            live == self.is_live(),
    {
        self.live
    }

    /// The instance identifier, for the crossing itself.
    pub fn id(&self) -> (id: Result<u64, BoundaryError>)
        ensures
            id == if self.is_live() {
                Ok::<u64, BoundaryError>(self.instance_id())
            } else {
                Err::<u64, BoundaryError>(BoundaryError::NotInitialized)
            },
    {
        if self.live {
            Ok(self.id)
        } else {
            Err(BoundaryError::NotInitialized)
        }
    }

    /// Checks a call before it crosses the boundary.
    pub fn call(&self, operation: Operation, out_size: u32) -> (admitted: Result<
        (),
        BoundaryError,
    >)
        ensures
            admitted == admission(self.is_live(), operation, out_size),
    {
        if !self.live {
            return Err(BoundaryError::NotInitialized);
        }
        let fits = match operation {
            Operation::GenerateKeypair => out_size as usize == PUBLIC_KEY_SIZE,
            Operation::Seal { payload_len, aad_len } => out_size as u64 == calc_sealed_size(
                payload_len,
                aad_len,
            ),
            Operation::Unseal { record_size } => out_size == record_size,
        };
        if fits {
            Ok(())
        } else {
            Err(BoundaryError::InvalidParameter)
        }
    }

    /// Releases the instance. A handle is destroyed once: on a destroyed
    /// handle this fails with `NotInitialized` and changes nothing.
    pub fn destroy(&mut self) -> (released: Result<(), BoundaryError>)
        ensures
            !final(self).is_live(),
            final(self).instance_id() == old(self).instance_id(),
            released == if old(self).is_live() {
                Ok::<(), BoundaryError>(())
            } else {
                Err::<(), BoundaryError>(BoundaryError::NotInitialized)
            },
    {
        if self.live {
            self.live = false;
            Ok(())
        } else {
            Err(BoundaryError::NotInitialized)
        }
    }
}

/// The name of an operation.
pub open spec fn operation_name(operation: Operation) -> Seq<char> {
    match operation {
        Operation::GenerateKeypair => "generate_keypair"@,
        Operation::Seal { .. } => "seal"@,
        Operation::Unseal { .. } => "unseal"@,
    }
}

/// The buffers whose size an operation depends on.
pub open spec fn buffer_name(operation: Operation) -> Seq<char> {
    match operation {
        Operation::GenerateKeypair => "public key"@,
        Operation::Seal { .. } => "sealed blob"@,
        Operation::Unseal { .. } => "sealed blob or record"@,
    }
}

/// What went wrong, in words.
pub open spec fn error_text(operation: Operation, error: BoundaryError) -> Seq<char> {
    match error {
        BoundaryError::Unexpected => "internal failure of the boundary"@,
        BoundaryError::InvalidParameter => "wrong size of the buffer for the "@ + buffer_name(
            operation,
        ),
        BoundaryError::IntegrityError => "the sealed blob did not verify"@,
        BoundaryError::NotInitialized => "the instance is destroyed or was never created"@,
        BoundaryError::OutOfMemory => "no room in the buffer for the "@ + buffer_name(operation),
    }
}

/// The message for a failed operation: the operation, then what went
/// wrong and with which buffer. It is made of the operation and the error
/// kind alone, so it can hold neither plaintext nor key material.
pub open spec fn failure_text(operation: Operation, error: BoundaryError) -> Seq<char> {
    operation_name(operation) + ": "@ + error_text(operation, error)
}

/// Words a message for a failed operation.
pub fn describe_failure(operation: Operation, error: BoundaryError) -> (message: String)
    ensures
        message@ == failure_text(operation, error),
{
    let name = match operation {
        Operation::GenerateKeypair => "generate_keypair",
        Operation::Seal { .. } => "seal",
        Operation::Unseal { .. } => "unseal",
    };
    let buffer = match operation {
        Operation::GenerateKeypair => "public key",
        Operation::Seal { .. } => "sealed blob",
        Operation::Unseal { .. } => "sealed blob or record",
    };
    let message = String::from_str(name).concat(": ");
    match error {
        BoundaryError::Unexpected => message.concat("internal failure of the boundary"),
        BoundaryError::InvalidParameter => {
            let text = String::from_str("wrong size of the buffer for the ").concat(buffer);
            message.concat(text.as_str())
        },
        BoundaryError::IntegrityError => message.concat("the sealed blob did not verify"),
        BoundaryError::NotInitialized => message.concat(
            "the instance is destroyed or was never created",
        ),
        BoundaryError::OutOfMemory => {
            let text = String::from_str("no room in the buffer for the ").concat(buffer);
            message.concat(text.as_str())
        },
    }
}

/// An instance that has been destroyed admits no operation, whatever the
/// buffer size.
pub proof fn lemma_destroyed_admits_nothing(operation: Operation, out_size: u32)
    ensures
        admission(false, operation, out_size) == Err::<(), BoundaryError>(
            BoundaryError::NotInitialized,
        ),
{
}

} // verus!
