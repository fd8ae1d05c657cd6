//! One-way hashing of a password, and the check of a password against a
//! stored hash.
//!
//! A hash is made with a salt drawn afresh for each call, so hashing the same
//! password twice gives two different texts. The salt and the cost parameters
//! travel inside the encoded hash; verifying needs nothing but that text and
//! the password offered.

use crate::error::{text_outcome, VaultError};
use crate::phc::{
    decode_fields, encode_password, encode_salt, fill_random, is_digest_of,
    is_encoding_of_these_alone, match_password, password_bytes, phc_digest, phc_encoding,
    phc_fields, salt_encoding, HashFields, HashFieldsView, MEMORY_COST, PARALLELISM,
    PASSWORD_BYTES, SALT_BYTES, TIME_COST, VERSION,
};
use vstd::prelude::*;

verus! {

/// What hashing `password` with `salt` comes to: the encoded hash, or
/// `HashingFailure` where the primitive refuses the two.
pub open spec fn hash_outcome(password: Seq<char>, salt: Seq<char>) -> Result<
    Seq<char>,
    VaultError,
> {
    match phc_encoding(password, salt) {
        Some(encoded) => Ok(encoded),
        None => Err(VaultError::HashingFailure),
    }
}

/// The salt that an encoded hash carries, if it decodes and has one.
pub open spec fn embedded_salt(encoded: Seq<char>) -> Option<Seq<char>> {
    match phc_fields(encoded) {
        Some(fields) => fields.salt,
        None => None,
    }
}

/// `encoded` decodes, and names the algorithm, the version and the three
/// costs that this library hashes with.
pub open spec fn carries_the_settings(encoded: Seq<char>) -> bool {
    &&& phc_fields(encoded) matches Some(fields)
    &&& fields.algorithm == "argon2id"@
    &&& fields.version == Some(VERSION)
    &&& fields.memory_cost == Some(MEMORY_COST)
    &&& fields.time_cost == Some(TIME_COST)
    &&& fields.parallelism == Some(PARALLELISM)
}

/// A stored hash is well formed only if it decoded, and to fields that hold
/// the three costs in decimal, a salt and a digest.
pub open spec fn complete(decoded: Option<HashFieldsView>) -> bool {
    &&& decoded matches Some(fields)
    &&& fields.memory_cost is Some
    &&& fields.time_cost is Some
    &&& fields.parallelism is Some
    &&& fields.salt is Some
    &&& fields.digest is Some
}

/// The digest that Argon2 derives from `password`, with the settings and the
/// salt that `stored` holds, is the digest that `stored` holds.
pub open spec fn digest_matches(stored: Seq<char>, password: Seq<char>) -> bool {
    is_digest_of(phc_digest(stored, password), phc_fields(stored))
}

/// Argon2 derives another digest from `other` than from `password`, with the
/// settings and the salt that `stored` holds.
pub open spec fn derives_another_digest(
    stored: Seq<char>,
    password: Seq<char>,
    other: Seq<char>,
) -> bool {
    phc_digest(stored, other) != phc_digest(stored, password)
}

/// What verifying `password` against `stored` comes to.
///
/// A text that is not a complete hash is a corrupt record:
/// `MalformedHashFailure`, never `false`. Otherwise the answer is whether the
/// digest derived from the password is the digest stored.
pub open spec fn verify_outcome(stored: Seq<char>, password: Seq<char>) -> Result<
    bool,
    VaultError,
> {
    if !complete(phc_fields(stored)) {
        Err(VaultError::MalformedHashFailure)
    } else {
        Ok(digest_matches(stored, password))
    }
}

/// `password` is accepted for `stored`: verifying the one against the other
/// comes to `Ok(true)`.
pub open spec fn verifies(stored: Seq<char>, password: Seq<char>) -> bool {
    verify_outcome(stored, password) == Ok::<bool, VaultError>(true)
}

/// `outcome` is what hashing `password` with `salt` comes to, and a hash in
/// it carries that salt and the settings it was made with.
pub open spec fn hashed_with(
    outcome: Result<String, VaultError>,
    password: Seq<char>,
    salt: Seq<char>,
) -> bool {
    &&& text_outcome(outcome) == hash_outcome(password, salt)
    &&& outcome matches Ok(encoded) ==> encoded@.len() > 0
    &&& outcome matches Ok(encoded) ==> embedded_salt(encoded@) == Some(salt)
    &&& outcome matches Ok(encoded) ==> carries_the_settings(encoded@)
}

/// `outcome` is what hashing `password` comes to once the random source has
/// answered with `drawn`: `HashingFailure` where it gave no bytes or the
/// bytes make no salt, and else the outcome of hashing with the salt that
/// stands for the bytes, and for no other bytes.
pub open spec fn hashed_from(
    outcome: Result<String, VaultError>,
    password: Seq<char>,
    drawn: Option<Seq<u8>>,
) -> bool {
    match drawn {
        None => outcome == Err::<String, VaultError>(VaultError::HashingFailure),
        Some(bytes) => match salt_encoding(bytes) {
            None => outcome == Err::<String, VaultError>(VaultError::HashingFailure),
            Some(salt) => hashed_with(outcome, password, salt) && is_encoding_of_these_alone(
                Some(salt),
                bytes,
            ),
        },
    }
}

/// `drawn` is an answer that the random source can give when asked for a
/// salt: nothing, or as many bytes as a salt has.
pub open spec fn salt_draw(drawn: Option<Seq<u8>>) -> bool {
    drawn matches Some(bytes) ==> bytes.len() == SALT_BYTES
}

/// The bytes that the random source answered with, if it gave any.
pub open spec fn bytes_of(drawn: Option<Vec<u8>>) -> Option<Seq<u8>> {
    match drawn {
        Some(bytes) => Some(bytes@),
        None => None,
    }
}

/// A password takes four bytes for each of its characters at most.
pub proof fn at_most_four_bytes_each(password: Seq<char>)
    ensures
        password_bytes(password) <= 4 * password.len(),
    decreases password.len(),
{
    if password.len() > 0 {
        at_most_four_bytes_each(password.drop_first());
        assert(vstd::utf8::encode_scalar(password[0] as u32).len() <= 4);
    }
}

/// Turns what the hashing primitive handed back into the outcome of `hash`:
/// the encoded hash as it came, or `HashingFailure` where none came.
pub fn encoded_or_failure(encoded: Option<String>) -> (outcome: Result<String, VaultError>)
    ensures
        encoded matches Some(text) ==> outcome == Ok::<String, VaultError>(text),
        encoded is None ==> outcome == Err::<String, VaultError>(VaultError::HashingFailure),
{
    match encoded {
        Some(text) => Ok(text),
        None => Err(VaultError::HashingFailure),
    }
}

/// Hashes `password` with the salt given, a text in unpadded base64.
///
/// The outcome is fixed by the two arguments. A hash that is returned carries
/// the salt and the settings it was made with, so that two salts never give
/// the same hash, and it verifies against the password it was made from.
pub fn hash_with_salt(password: &str, salt: &str) -> (outcome: Result<String, VaultError>)
    ensures
        hashed_with(outcome, password@, salt@),
        outcome matches Ok(encoded) ==> verifies(encoded@, password@),
{
    encoded_or_failure(encode_password(password, salt))
}

/// Hashes `password` once the random source has answered with `drawn`.
///
/// No bytes, or bytes that make no salt, give `HashingFailure`. Bytes that
/// make a salt give what [`hash_with_salt`] gives with it. As many bytes as a
/// salt has always give a hash, unless the password is longer than the
/// primitive takes.
pub fn hash_with_drawn(password: &str, drawn: Option<Vec<u8>>) -> (outcome: Result<
    String,
    VaultError,
>)
    ensures
        hashed_from(outcome, password@, bytes_of(drawn)),
        outcome matches Ok(encoded) ==> verifies(encoded@, password@),
        drawn matches Some(bytes) && bytes@.len() == SALT_BYTES && password_bytes(password@)
            <= PASSWORD_BYTES ==> outcome is Ok,
        drawn matches Some(bytes) && bytes@.len() == SALT_BYTES && 4 * password@.len()
            <= PASSWORD_BYTES ==> outcome is Ok,
{
    proof {
        at_most_four_bytes_each(password@);
    }
    match drawn {
        None => Err(VaultError::HashingFailure),
        Some(bytes) => match encode_salt(bytes.as_slice()) {
            None => Err(VaultError::HashingFailure),
            Some(salt) => hash_with_salt(password, salt.as_str()),
        },
    }
}

/// Hashes `password`, which may be any text, the empty one included, with a
/// salt drawn for this call.
///
/// The outcome is that of [`hash_with_drawn`] for what the random source
/// answered. A hash that is returned verifies against `password`.
pub fn hash(password: String) -> (outcome: Result<String, VaultError>)
    ensures
        exists|drawn: Option<Seq<u8>>|
            salt_draw(drawn) && #[trigger] hashed_from(outcome, password@, drawn),
        outcome matches Ok(encoded) ==> verifies(encoded@, password@),
        outcome matches Ok(encoded) ==> encoded@.len() > 0,
        outcome matches Ok(encoded) ==> carries_the_settings(encoded@),
        outcome matches Ok(encoded) ==> complete(phc_fields(encoded@)),
{
    let mut buffer: Vec<u8> = vec![0u8; SALT_BYTES];
    let filled = fill_random(&mut buffer);
    let drawn = if filled {
        Some(buffer)
    } else {
        None
    };
    let ghost answer = bytes_of(drawn);
    let outcome = hash_with_drawn(password.as_str(), drawn);
    assert(salt_draw(answer) && hashed_from(outcome, password@, answer));
    outcome
}

/// Fresh draws make fresh hashes: where two hashes were made from different
/// bytes of the random source, the two texts differ, whether or not the
/// passwords do.
pub proof fn different_draws_give_different_hashes(
    first: Result<String, VaultError>,
    second: Result<String, VaultError>,
    first_password: Seq<char>,
    second_password: Seq<char>,
    first_bytes: Seq<u8>,
    second_bytes: Seq<u8>,
)
    requires
        hashed_from(first, first_password, Some(first_bytes)),
        hashed_from(second, second_password, Some(second_bytes)),
        first_bytes != second_bytes,
    ensures
        first matches Ok(one) ==> (second matches Ok(other) ==> one@ != other@),
{
}

/// Fresh salts make fresh hashes: where two hashes were made with different
/// salts, the two texts differ, whether or not the passwords do.
pub proof fn different_salts_give_different_hashes(
    first: Result<String, VaultError>,
    second: Result<String, VaultError>,
    first_password: Seq<char>,
    second_password: Seq<char>,
    first_salt: Seq<char>,
    second_salt: Seq<char>,
)
    requires
        hashed_with(first, first_password, first_salt),
        hashed_with(second, second_password, second_salt),
        first_salt != second_salt,
    ensures
        first matches Ok(one) ==> (second matches Ok(other) ==> one@ != other@),
{
}

/// A hash that accepts one password accepts no password from which Argon2
/// derives another digest: for such a password the answer is `false`, and
/// not a failure.
pub proof fn another_digest_is_not_accepted(
    stored: Seq<char>,
    password: Seq<char>,
    other: Seq<char>,
)
    requires
        verifies(stored, password),
        derives_another_digest(stored, password, other),
    ensures
        verify_outcome(stored, other) == Ok::<bool, VaultError>(false),
{
}

/// Whether a stored hash is malformed does not depend on the password
/// offered: verifying fails for every password or for none.
pub proof fn malformed_whatever_the_password(
    stored: Seq<char>,
    password: Seq<char>,
    other: Seq<char>,
)
    ensures
        verify_outcome(stored, password) is Err <==> verify_outcome(stored, other) is Err,
        verify_outcome(stored, password) is Err <==> !complete(phc_fields(stored)),
{
}

/// Whether a decoded hash has what verification needs: it decoded, and it
/// holds the three costs, a salt and a digest.
pub fn verifiable(decoded: &Option<HashFields>) -> (ok: bool)
    ensures
        ok == complete(decoded.deep_view()),
{
    match decoded {
        Some(fields) => fields.memory_cost.is_some() && fields.time_cost.is_some()
            && fields.parallelism.is_some() && fields.salt.is_some() && fields.digest.is_some(),
        None => false,
    }
}

/// Turns what the verifying primitive handed back into the outcome of
/// `verify`: its answer, or `MalformedHashFailure` where it could not read
/// the stored hash.
pub fn answer_or_failure(matched: Option<bool>) -> (outcome: Result<bool, VaultError>)
    ensures
        matched matches Some(answer) ==> outcome == Ok::<bool, VaultError>(answer),
        matched is None ==> outcome == Err::<bool, VaultError>(VaultError::MalformedHashFailure),
{
    match matched {
        Some(answer) => Ok(answer),
        None => Err(VaultError::MalformedHashFailure),
    }
}

/// Checks `password` against `stored_hash`.
///
/// `Ok(true)` only where the digest derived from the password, with the salt
/// and the parameters that the stored hash holds, equals the digest stored.
/// A stored hash that does not decode, or that lacks a cost, its salt or its
/// digest, gives `MalformedHashFailure`, and nothing else does: a wrong
/// password and a corrupt record can always be told apart.
pub fn verify(stored_hash: String, password: String) -> (outcome: Result<bool, VaultError>)
    ensures
        outcome == verify_outcome(stored_hash@, password@),
        outcome is Err <==> !complete(phc_fields(stored_hash@)),
        outcome is Err ==> outcome == Err::<bool, VaultError>(VaultError::MalformedHashFailure),
{
    let decoded = decode_fields(stored_hash.as_str());
    if !verifiable(&decoded) {
        return Err(VaultError::MalformedHashFailure);
    }
    answer_or_failure(match_password(stored_hash.as_str(), password.as_str()))
}

} // verus!
