//! Integrity verification of downloaded bytes: the authoritative SHA-1
//! and size check, with the explicitly unsupported bypass escape hatch.

use vstd::prelude::*;

use crate::hash::{sha1_hash, sha1_of, Sha1Hash};

verus! {

/// The outcome of verifying a downloaded byte buffer.
#[derive(Debug)]
pub enum VerificationResult {
    /// Size and SHA-1 digest both match the expectation.
    Valid,
    /// The bypass flag was set: the bytes are accepted regardless of
    /// their actual size or digest.
    ForciblyAccepted,
    /// Size or digest mismatch; carries the digest actually computed.
    Mismatch(Sha1Hash),
}

/// Downloaded bytes are authentic when their length equals the expected
/// size and their SHA-1 digest equals the expected content hash.
pub open spec fn bytes_authentic(bytes: Seq<u8>, expected_size: nat, expected_hash: Seq<u8>) -> bool {
    bytes.len() == expected_size && sha1_of(bytes) == expected_hash
}

/// Verifies a downloaded buffer against the expected size and content
/// hash.  With the bypass set the result is always `ForciblyAccepted`,
/// regardless of actual correctness.
pub fn verify(
    bytes: &Vec<u8>,
    expected_size: usize,
    expected_hash: &Sha1Hash,
    allow_unsafe_bypass: bool,
) -> (r: VerificationResult)
    ensures
        allow_unsafe_bypass ==> r is ForciblyAccepted,
        !allow_unsafe_bypass && bytes_authentic(bytes@, expected_size as nat, expected_hash@)
            ==> r is Valid,
        !allow_unsafe_bypass && !bytes_authentic(bytes@, expected_size as nat, expected_hash@)
            ==> (r matches VerificationResult::Mismatch(a) && a@ == sha1_of(bytes@)),
{
    let actual_hash = sha1_hash(bytes);
    if allow_unsafe_bypass {
        return VerificationResult::ForciblyAccepted;
    }
    if bytes.len() == expected_size && actual_hash == *expected_hash {
        VerificationResult::Valid
    } else {
        VerificationResult::Mismatch(actual_hash)
    }
}

} // verus!
