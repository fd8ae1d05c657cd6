//! The Argon2 primitive, the PHC string format and the random source, as the
//! `argon2` crate and its `password_hash` module provide them.
//!
//! Nothing in this file is proved. Each function below makes one call into
//! that crate; its contract is what the rest of the library assumes of the
//! call. Four of the calls are functions of their arguments alone, and their
//! results are named by uninterpreted functions; a fifth name stands for a
//! value inside one of the calls.

use argon2::password_hash::rand_core::{OsRng, RngCore};
use argon2::password_hash::{PasswordHash, PasswordHasher, PasswordVerifier, SaltString};
use argon2::Argon2;
use vstd::prelude::*;

verus! {

/// The number of random bytes in a salt.
pub const SALT_BYTES: usize = 16;

/// The version of Argon2 that hashes are made with.
pub const VERSION: u32 = 19;

/// The memory that a hash is made with, in blocks of one kibibyte.
pub const MEMORY_COST: u32 = 4096;

/// The number of passes that a hash is made with.
pub const TIME_COST: u32 = 3;

/// The number of lanes that a hash is made with.
pub const PARALLELISM: u32 = 1;

/// The longest password that the primitive takes, in bytes of its UTF-8
/// encoding.
pub const PASSWORD_BYTES: u64 = 0xFFFF_FFFF;

/// What an encoded hash holds, field by field, once it has been decoded:
/// `$<algorithm>[$v=<version>][$<params>][$<salt>[$<digest>]]`.
pub struct HashFields {
    /// The identifier of the hashing function, such as `argon2id`.
    pub algorithm: String,
    /// The version of the function, where the encoding names one.
    pub version: Option<u32>,
    /// The parameter `m`, where the encoding names it with a decimal value.
    pub memory_cost: Option<u32>,
    /// The parameter `t`, where the encoding names it with a decimal value.
    pub time_cost: Option<u32>,
    /// The parameter `p`, where the encoding names it with a decimal value.
    pub parallelism: Option<u32>,
    /// The salt as written, in unpadded base64.
    pub salt: Option<String>,
    /// The digest, decoded to bytes.
    pub digest: Option<Vec<u8>>,
}

/// The mathematical value of a [`HashFields`].
pub struct HashFieldsView {
    pub algorithm: Seq<char>,
    pub version: Option<u32>,
    pub memory_cost: Option<u32>,
    pub time_cost: Option<u32>,
    pub parallelism: Option<u32>,
    pub salt: Option<Seq<char>>,
    pub digest: Option<Seq<u8>>,
}

impl View for HashFields {
    type V = HashFieldsView;

    open spec fn view(&self) -> HashFieldsView {
        HashFieldsView {
            algorithm: self.algorithm@,
            version: self.version,
            memory_cost: self.memory_cost,
            time_cost: self.time_cost,
            parallelism: self.parallelism,
            salt: self.salt.deep_view(),
            digest: self.digest.deep_view(),
        }
    }
}

impl DeepView for HashFields {
    type V = HashFieldsView;

    open spec fn deep_view(&self) -> HashFieldsView {
        self@
    }
}

/// The salt text that stands for `bytes`: their unpadded base64, or `None`
/// where they are too many for a salt.
pub uninterp spec fn salt_encoding(bytes: Seq<u8>) -> Option<Seq<char>>;

/// The encoded hash that Argon2 with the crate's default settings (Argon2id,
/// version 19, no secret) makes of `password` and `salt`, or `None` where it
/// refuses them.
pub uninterp spec fn phc_encoding(password: Seq<char>, salt: Seq<char>) -> Option<Seq<char>>;

/// The fields that `encoded` decodes to as a PHC string, or `None` where it
/// is not one.
pub uninterp spec fn phc_fields(encoded: Seq<char>) -> Option<HashFieldsView>;

/// Whether Argon2, run with the algorithm, version, parameters and salt that
/// `encoded` holds, accepts `password` for the digest that `encoded` holds.
/// `None` where `encoded` does not decode.
pub uninterp spec fn phc_match(encoded: Seq<char>, password: Seq<char>) -> Option<bool>;

/// The digest that Argon2 derives from `password` with the algorithm,
/// version, parameters and salt that `encoded` holds, as long as the digest
/// that `encoded` holds. `None` where `encoded` does not decode or holds no
/// salt or no digest, and where Argon2 refuses what it holds.
///
/// No function of the crate hands this value out. It is the output that
/// `verify_password` computes inside, before it compares it with the digest
/// stored; the name is there so that the contracts can say what is compared.
pub uninterp spec fn phc_digest(encoded: Seq<char>, password: Seq<char>) -> Option<Seq<u8>>;

/// `decoded` holds a digest, and `derived` is that digest.
pub open spec fn is_digest_of(derived: Option<Seq<u8>>, decoded: Option<HashFieldsView>) -> bool {
    decoded matches Some(fields) && fields.digest is Some && derived == fields.digest
}

/// The number of bytes that `password` takes in UTF-8.
pub open spec fn password_bytes(password: Seq<char>) -> nat {
    vstd::utf8::encode_utf8(password).len()
}

/// The primitive makes a hash with `salt` of every password within its limit.
pub open spec fn serves_every_password(salt: Seq<char>) -> bool {
    forall|password: Seq<char>|
        password_bytes(password) <= PASSWORD_BYTES ==> (#[trigger] phc_encoding(
            password,
            salt,
        )) is Some
}

/// `encoded` is a salt text, and one that serves every password.
pub open spec fn is_serving_salt(encoded: Option<Seq<char>>) -> bool {
    encoded matches Some(salt) && serves_every_password(salt)
}

/// No other bytes than `bytes` have the salt text in `encoded`.
pub open spec fn is_encoding_of_these_alone(encoded: Option<Seq<char>>, bytes: Seq<u8>) -> bool {
    encoded matches Some(salt) ==> forall|other: Seq<u8>|
        (#[trigger] salt_encoding(other)) == Some(salt) ==> other == bytes
}

/// `encoded` holds a text, and not the empty one.
pub open spec fn is_some_text(encoded: Option<Seq<char>>) -> bool {
    encoded matches Some(text) && text.len() > 0
}

/// `fields` are those of a hash made with `salt` and the settings fixed
/// above: Argon2id in its version 19, with the three costs, the salt as it
/// was given, and a digest.
pub open spec fn made_with(fields: HashFieldsView, salt: Seq<char>) -> bool {
    &&& fields.algorithm == "argon2id"@
    &&& fields.version == Some(VERSION)
    &&& fields.memory_cost == Some(MEMORY_COST)
    &&& fields.time_cost == Some(TIME_COST)
    &&& fields.parallelism == Some(PARALLELISM)
    &&& fields.salt == Some(salt)
    &&& fields.digest is Some
}

/// `decoded` holds fields, and those of a hash made with `salt`.
pub open spec fn is_made_with(decoded: Option<HashFieldsView>, salt: Seq<char>) -> bool {
    decoded matches Some(fields) && made_with(fields, salt)
}

/// `OsRng::try_fill_bytes` on the buffer given; the answer is whether the
/// operating system filled it.
///
/// Assumed: the buffer keeps its length. Which bytes come to stand in it, and
/// whether the operating system yields any, is left open.
#[verifier::external_body]
pub(crate) fn fill_random(buffer: &mut Vec<u8>) -> (filled: bool)
    ensures
        final(buffer)@.len() == old(buffer)@.len(),
{
    OsRng.try_fill_bytes(buffer.as_mut_slice()).is_ok()
}

/// `SaltString::b64_encode`, the text copied out.
///
/// Assumed: the text depends on the bytes alone, and no other bytes have the
/// same text. Sixteen bytes always give a text, and one that the primitive
/// takes as a salt for every password within its limit.
#[verifier::external_body]
pub(crate) fn encode_salt(bytes: &[u8]) -> (encoded: Option<String>)
    ensures
        encoded.deep_view() == salt_encoding(bytes@),
        is_encoding_of_these_alone(encoded.deep_view(), bytes@),
        bytes@.len() == SALT_BYTES ==> is_serving_salt(encoded.deep_view()),
{
    match SaltString::b64_encode(bytes) {
        Ok(salt) => Some(salt.as_str().to_owned()),
        Err(_) => None,
    }
}

/// `Argon2::default().hash_password`, and `to_string` on what it returns.
///
/// Assumed: the result depends on the password and the salt alone. Where a
/// hash is returned, it is not the empty text: it begins with a dollar sign.
/// It decodes again, to fields that name the settings fixed above and hold
/// the salt as it was given and a digest; and that digest is the one that
/// Argon2 derives again from the same password and what the hash holds, so
/// that `verify_password` accepts the password for it.
#[verifier::external_body]
pub(crate) fn encode_password(password: &str, salt: &str) -> (encoded: Option<String>)
    ensures
        encoded.deep_view() == phc_encoding(password@, salt@),
        encoded is Some ==> is_some_text(encoded.deep_view()),
        encoded matches Some(text) ==> is_made_with(phc_fields(text@), salt@),
        encoded matches Some(text) ==> is_digest_of(
            phc_digest(text@, password@),
            phc_fields(text@),
        ),
{
    match Argon2::default().hash_password(password.as_bytes(), salt) {
        Ok(hash) => Some(hash.to_string()),
        Err(_) => None,
    }
}

/// `PasswordHash::new`, its result copied out field by field; the three
/// costs are read with `ParamsString::get_decimal` under the names that
/// Argon2 gives them.
///
/// Assumed: whether the text decodes, and to which fields, depends on the
/// text alone.
#[verifier::external_body]
pub(crate) fn decode_fields(encoded: &str) -> (decoded: Option<HashFields>)
    ensures
        decoded.deep_view() == phc_fields(encoded@),
{
    match PasswordHash::new(encoded) {
        Ok(parsed) => Some(HashFields {
            algorithm: parsed.algorithm.as_str().to_owned(),
            version: parsed.version,
            memory_cost: parsed.params.get_decimal("m"),
            time_cost: parsed.params.get_decimal("t"),
            parallelism: parsed.params.get_decimal("p"),
            salt: parsed.salt.map(|salt| salt.as_str().to_owned()),
            digest: parsed.hash.map(|digest| digest.as_bytes().to_vec()),
        }),
        Err(_) => None,
    }
}

/// `Argon2::default().verify_password` on what `PasswordHash::new` makes of
/// `encoded`. Every error of `verify_password` counts as a password that is
/// not accepted.
///
/// Assumed: the result depends on the two texts alone; there is an answer
/// exactly where the text decodes; and the password is accepted exactly where
/// the digest that Argon2 derives from it is the digest that the text holds.
#[verifier::external_body]
pub(crate) fn match_password(encoded: &str, password: &str) -> (matched: Option<bool>)
    ensures
        matched == phc_match(encoded@, password@),
        matched is Some <==> phc_fields(encoded@) is Some,
        matched == Some(true) <==> is_digest_of(
            phc_digest(encoded@, password@),
            phc_fields(encoded@),
        ),
{
    match PasswordHash::new(encoded) {
        Ok(parsed) => Some(Argon2::default().verify_password(password.as_bytes(), &parsed).is_ok()),
        Err(_) => None,
    }
}

} // verus!
