//! The symmetric scheme, as the `magic-crypt` crate provides it: AES-256 in
//! CBC mode with PKCS#7 padding, keyed by the SHA-256 digest of the key text,
//! with an all-zero initialisation vector, written out in standard base64.
//!
//! Nothing in this file is proved. Each function below builds the crate's
//! `MagicCrypt256` from the key, as its `new_magic_crypt!` macro does for 256
//! bits, and makes one call on it; its contract is what the rest of the
//! library assumes of the call. Both calls are functions of their arguments
//! alone, and the two uninterpreted functions name their results.

use crate::frame::all_base64;
use magic_crypt::{MagicCrypt256, MagicCryptTrait};
use vstd::prelude::*;

verus! {

/// The text that the scheme makes of `plaintext` under `key`.
pub uninterp spec fn sealed_text(key: Seq<char>, plaintext: Seq<char>) -> Seq<char>;

/// The plaintext that the scheme reads out of `sealed` under `key`, or `None`
/// where it reads none: the text is not base64, its length is not a whole
/// number of blocks, the padding is wrong, or the bytes are not UTF-8.
pub uninterp spec fn opened_text(key: Seq<char>, sealed: Seq<char>) -> Option<Seq<char>>;

/// `MagicCrypt256::encrypt_str_to_base64`.
///
/// Assumed: the text depends on the key and the plaintext alone, it is
/// written in the base64 alphabet, and `decrypt_base64_to_string` under the
/// same key reads the plaintext back out of it.
#[verifier::external_body]
pub(crate) fn encrypt_text(key: &str, plaintext: &str) -> (sealed: String)
    ensures
        sealed@ == sealed_text(key@, plaintext@),
        all_base64(sealed@),
        opened_text(key@, sealed@) == Some(plaintext@),
{
    MagicCrypt256::new(key, None::<String>).encrypt_str_to_base64(plaintext)
}

/// `MagicCrypt256::decrypt_base64_to_string`, its error dropped.
///
/// Assumed: whether a plaintext comes out, and which, depends on the key and
/// the text alone.
#[verifier::external_body]
pub(crate) fn decrypt_text(key: &str, sealed: &str) -> (plaintext: Option<String>)
    ensures
        plaintext.deep_view() == opened_text(key@, sealed@),
{
    MagicCrypt256::new(key, None::<String>).decrypt_base64_to_string(sealed).ok()
}

} // verus!
