//! Reversible encryption of stored values under one key.
//!
//! A [`Cipher`] is made once, from the key that the application was given,
//! and never changes. Every call is a function of the key and its argument:
//! the same plaintext gives the same ciphertext, and nothing is kept between
//! calls.
//!
//! A ciphertext is what the scheme makes of the plaintext, put in the
//! integrity frame of [`crate::frame`]. `decrypt` opens a text only if it is
//! framed and if sealing the plaintext that comes out gives the same text
//! again: it returns a plaintext for the very ciphertext that `encrypt` makes
//! of that plaintext, and for no other text.

use crate::error::{text_outcome, VaultError};
use crate::frame::{
    all_base64, body_of, body_of_framed_text, changed_character_is_not_framed, frame, framed,
    framed_is_base64, framed_text, proper_prefix_is_not_framed, unframe,
};
use crate::sealing::{decrypt_text, encrypt_text, opened_text, sealed_text};
use vstd::prelude::*;

verus! {

/// The ciphertext of `plaintext` under `key`: what the scheme makes of it,
/// in its frame.
pub open spec fn encrypted_text(key: Seq<char>, plaintext: Seq<char>) -> Seq<char> {
    framed_text(sealed_text(key, plaintext))
}

/// What decrypting `ciphertext` under `key` comes to: the plaintext that the
/// scheme reads out of the framed body, provided that the scheme makes that
/// body of it; `DecryptionFailure` for every other text.
pub open spec fn decrypt_outcome(key: Seq<char>, ciphertext: Seq<char>) -> Result<
    Seq<char>,
    VaultError,
> {
    if !framed(ciphertext) {
        Err(VaultError::DecryptionFailure)
    } else {
        match opened_text(key, body_of(ciphertext)) {
            Some(plaintext) => if sealed_text(key, plaintext) == body_of(ciphertext) {
                Ok(plaintext)
            } else {
                Err(VaultError::DecryptionFailure)
            },
            None => Err(VaultError::DecryptionFailure),
        }
    }
}

/// `ciphertext` decrypts under `key`, and to `plaintext`.
pub open spec fn opens_to(key: Seq<char>, ciphertext: Seq<char>, plaintext: Seq<char>) -> bool {
    decrypt_outcome(key, ciphertext) == Ok::<Seq<char>, VaultError>(plaintext)
}

/// Only what `encrypt` makes of a plaintext decrypts to it.
pub proof fn only_the_ciphertext_opens(
    key: Seq<char>,
    ciphertext: Seq<char>,
    plaintext: Seq<char>,
)
    requires
        opens_to(key, ciphertext, plaintext),
    ensures
        ciphertext == encrypted_text(key, plaintext),
{
}

/// A ciphertext that was cut short does not decrypt, whatever the key.
pub proof fn truncated_ciphertext_is_refused(key: Seq<char>, ciphertext: Seq<char>, length: int)
    requires
        framed(ciphertext),
        0 <= length < ciphertext.len(),
    ensures
        decrypt_outcome(key, ciphertext.take(length)) == Err::<Seq<char>, VaultError>(
            VaultError::DecryptionFailure,
        ),
{
    proper_prefix_is_not_framed(ciphertext, length);
}

/// A ciphertext in which one character was changed does not decrypt,
/// whatever the key.
pub proof fn changed_ciphertext_is_refused(
    key: Seq<char>,
    ciphertext: Seq<char>,
    position: int,
    character: char,
)
    requires
        framed(ciphertext),
        0 <= position < ciphertext.len(),
        character != ciphertext[position],
    ensures
        decrypt_outcome(key, ciphertext.update(position, character)) == Err::<
            Seq<char>,
            VaultError,
        >(VaultError::DecryptionFailure),
{
    changed_character_is_not_framed(ciphertext, position, character);
}

/// Turns what the scheme handed back into the outcome of `decrypt`: the
/// plaintext as it came, or `DecryptionFailure` where none came.
pub fn plaintext_or_failure(opened: Option<String>) -> (outcome: Result<String, VaultError>)
    ensures
        opened matches Some(text) ==> outcome == Ok::<String, VaultError>(text),
        opened is None ==> outcome == Err::<String, VaultError>(VaultError::DecryptionFailure),
{
    match opened {
        Some(text) => Ok(text),
        None => Err(VaultError::DecryptionFailure),
    }
}

/// Turns what the scheme made of a plaintext that it had read out of `body`
/// into the outcome of `decrypt`: the plaintext, where the scheme makes the
/// same body of it again, and `DecryptionFailure` where it makes another.
pub fn confirmed_or_failure(plaintext: String, sealed_again: &String, body: &String) -> (outcome:
    Result<String, VaultError>)
    ensures
        sealed_again@ == body@ ==> outcome == Ok::<String, VaultError>(plaintext),
        sealed_again@ != body@ ==> outcome == Err::<String, VaultError>(
            VaultError::DecryptionFailure,
        ),
{
    if *sealed_again == *body {
        Ok(plaintext)
    } else {
        Err(VaultError::DecryptionFailure)
    }
}

/// The symmetric cipher of the vault, holding the one key it works under.
pub struct Cipher {
    key: String,
}

impl Cipher {
    /// The key that this cipher works under.
    pub closed spec fn key(&self) -> Seq<char> {
        self.key@
    }

    /// A cipher that works under `key`, which may be any text.
    pub fn new(key: String) -> (cipher: Cipher)
        ensures
            cipher.key() == key@,
    {
        Cipher { key }
    }

    /// Encrypts `plaintext`, which may be any text, the empty one included,
    /// into printable text.
    ///
    /// The ciphertext is fixed by the key and the plaintext. It is framed,
    /// every character of it is one of base64, and `decrypt` under the same
    /// key gives the plaintext back.
    pub fn encrypt(&self, plaintext: String) -> (ciphertext: String)
        ensures
            ciphertext@ == encrypted_text(self.key(), plaintext@),
            framed(ciphertext@),
            all_base64(ciphertext@),
            opens_to(self.key(), ciphertext@, plaintext@),
    {
        let sealed = encrypt_text(self.key.as_str(), plaintext.as_str());
        proof {
            body_of_framed_text(sealed@);
        }
        match frame(sealed.as_str()) {
            Some(ciphertext) => {
                proof {
                    framed_is_base64(ciphertext@);
                }
                ciphertext
            },
            // The scheme writes base64, and every such text has a frame.
            None => sealed,
        }
    }

    /// Decrypts `ciphertext`.
    ///
    /// A plaintext comes back only for the ciphertext that `encrypt` makes
    /// of it under this key. Every other text gives `DecryptionFailure`:
    /// among them every text that is not framed, and so every ciphertext
    /// that was cut short or had one character changed.
    ///
    /// A text that the scheme alone wrote, without the frame, is refused
    /// too. Values that were stored before ciphertexts were framed do not
    /// decrypt here; they have to be opened with the scheme and encrypted
    /// anew.
    pub fn decrypt(&self, ciphertext: String) -> (outcome: Result<String, VaultError>)
        ensures
            text_outcome(outcome) == decrypt_outcome(self.key(), ciphertext@),
            outcome matches Ok(plaintext) ==> ciphertext@ == encrypted_text(
                self.key(),
                plaintext@,
            ),
            !framed(ciphertext@) ==> outcome == Err::<String, VaultError>(
                VaultError::DecryptionFailure,
            ),
    {
        let body = match unframe(ciphertext.as_str()) {
            Some(body) => body,
            None => { return Err(VaultError::DecryptionFailure); },
        };
        let plaintext = match plaintext_or_failure(decrypt_text(self.key.as_str(), body.as_str())) {
            Ok(plaintext) => plaintext,
            Err(failure) => { return Err(failure); },
        };
        let sealed_again = encrypt_text(self.key.as_str(), plaintext.as_str());
        confirmed_or_failure(plaintext, &sealed_again, &body)
    }
}

} // verus!
