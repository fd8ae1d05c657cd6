use vstd::prelude::*;

verus! {

/// Why a vault operation handed back no value.
///
/// Every failure ends the call that met it; nothing is retried, and nothing
/// weaker is tried in its place.
#[derive(Clone, Copy, Debug, PartialEq, Eq, Structural)]
pub enum VaultError {
    /// The hashing primitive refused the password or the salt.
    HashingFailure,
    /// The stored hash does not decode, or lacks its salt or its digest.
    MalformedHashFailure,
    /// The ciphertext does not open under the key.
    DecryptionFailure,
}

/// A text outcome seen through the view of its `String`.
pub open spec fn text_outcome(r: Result<String, VaultError>) -> Result<Seq<char>, VaultError> {
    match r {
        Ok(text) => Ok(text@),
        Err(e) => Err(e),
    }
}

} // verus!
