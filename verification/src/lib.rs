//! Secret protection for a local credential vault: one-way password hashing
//! with verification, and reversible encryption of stored values under one
//! application-wide key.
//!
//! The two halves share nothing. [`authenticator`] turns a password into a
//! self-describing Argon2 hash and checks a password against such a hash.
//! [`cipher`] seals and opens text under a key fixed when the cipher is made,
//! and writes every ciphertext in the integrity frame of [`frame`].
//! The cryptographic primitives come from the `argon2` and `magic-crypt`
//! crates; [`phc`] and [`sealing`] hold the contracts assumed of them.

pub mod authenticator;
pub mod cipher;
pub mod error;
pub mod frame;
pub mod phc;
pub mod sealing;

pub use authenticator::{hash, hash_with_drawn, hash_with_salt, verify};
pub use cipher::Cipher;
pub use error::VaultError;
