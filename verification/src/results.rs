//! Plain result envelopes and value validation for the operations a loaded
//! native module exposes to its host runtime.
//!
//! Every operation reports either a value or an error message, never both,
//! so the host side can marshal one flat record across the foreign
//! boundary.

use vstd::prelude::*;

verus! {

/// Outcome of an operation that returns no value.
#[derive(Debug, Default)]
pub struct OperationResult {
    pub error: Option<String>,
}

/// Outcome of an operation that returns raw bytes.
#[derive(Debug, Default)]
pub struct BytesResult {
    pub value: Option<Vec<u8>>,
    pub error: Option<String>,
}

/// Outcome of an operation that returns an account record.
#[derive(Debug, Default)]
pub struct AccountResult {
    pub value: Option<SerializableAccount>,
    pub error: Option<String>,
}

/// Outcome of an operation that returns an unsigned 64-bit value.
#[derive(Debug, Default)]
pub struct U64Result {
    pub value: Option<u64>,
    pub error: Option<String>,
}

/// Outcome of an operation that returns a string.
#[derive(Debug, Default)]
pub struct StringResult {
    pub value: Option<String>,
    pub error: Option<String>,
}

/// An account record flattened to plain values so it can cross the foreign
/// boundary in a compact binary encoding.
#[derive(Debug, Clone)]
pub struct SerializableAccount {
    pub lamports: u64,
    pub data: Vec<u8>,
    pub owner: [u8; 32],
    pub executable: bool,
    pub rent_epoch: u64,
}

/// Folds a unit outcome into an `OperationResult`: no message on success,
/// the failure's message otherwise.
pub fn into_operation_result(value: Result<(), String>) -> (r: OperationResult)
    ensures
        match value {
            Ok(_) => r.error is None,
            Err(e) => r.error == Some(e),
        },
{
    match value {
        Ok(()) => OperationResult { error: None },
        Err(error) => OperationResult { error: Some(error) },
    }
}

/// Splits an outcome into the value-and-error pair of a result envelope:
/// exactly one side is present.
pub fn wrap_value<T>(value: Result<T, String>) -> (r: (Option<T>, Option<String>))
    ensures
        match value {
            Ok(v) => r.0 == Some(v) && r.1 is None,
            Err(e) => r.0 is None && r.1 == Some(e),
        },
{
    match value {
        Ok(value) => (Some(value), None),
        Err(error) => (None, Some(error)),
    }
}

/// The message reported for a key of the wrong length.
pub open spec fn bad_key_message() -> Seq<char> {
    "expected 32 byte public key"@
}

/// Checks and converts a byte slice into a 32-byte public key, rejecting
/// any other length with a fixed message.
pub fn convert_pubkey(bytes: &[u8]) -> (r: Result<[u8; 32], String>)
    ensures
        match r {
            Ok(k) => bytes@.len() == 32 && k@ == bytes@,
            Err(e) => bytes@.len() != 32 && e@ == bad_key_message(),
        },
{
    if bytes.len() != 32 {
        return Err("expected 32 byte public key".to_owned());
    }
    let mut key: [u8; 32] = [0u8; 32];
    let mut i: usize = 0;
    while i < 32
        invariant
            i <= 32,
            bytes@.len() == 32,
            key@.len() == 32,
            forall|j: int| 0 <= j < i ==> key@[j] == bytes@[j],
        decreases 32 - i,
    {
        key[i] = bytes[i];
        i += 1;
    }
    proof {
        assert(key@ =~= bytes@);
    }
    Ok(key)
}

} // verus!
