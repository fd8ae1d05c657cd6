use vault_core::authenticator::{
    answer_or_failure, encoded_or_failure, hash, hash_with_drawn, hash_with_salt, verifiable,
    verify,
};
use vault_core::phc::HashFields;
use vault_core::VaultError;

const EXAMPLE_SALT: &str = "examplesaltvalue";

const EXAMPLE_HASH: &str =
    "$argon2id$v=19$m=4096,t=3,p=1$examplesaltvalue$F5THX2InSgzTJ87b9omSGIsNWAjS1gVsQ5t2a0gs7TY";

fn fields(salt: Option<&str>, digest: Option<Vec<u8>>) -> HashFields {
    HashFields {
        algorithm: String::from("argon2id"),
        version: Some(19),
        memory_cost: Some(4096),
        time_cost: Some(3),
        parallelism: Some(1),
        salt: salt.map(String::from),
        digest,
    }
}

#[test]
fn no_random_bytes_are_a_hashing_failure() {
    assert_eq!(hash_with_drawn("hunter42", None), Err(VaultError::HashingFailure));
}

#[test]
fn sixteen_drawn_bytes_make_the_salt_of_the_hash() {
    let zeros = hash_with_drawn("hunter42", Some(vec![0u8; 16])).unwrap();
    assert_eq!(zeros.split('$').nth(4), Some("AAAAAAAAAAAAAAAAAAAAAA"));
    assert_eq!(Ok(zeros.clone()), hash_with_salt("hunter42", "AAAAAAAAAAAAAAAAAAAAAA"));
    assert_eq!(verify(zeros, String::from("hunter42")), Ok(true));

    let ones = hash_with_drawn("hunter42", Some(vec![255u8; 16])).unwrap();
    assert_eq!(ones.split('$').nth(4), Some("/////////////////////w"));
    assert_eq!(verify(ones, String::from("hunter42")), Ok(true));
}

#[test]
fn different_drawn_bytes_make_different_hashes_of_one_password() {
    let mut last = vec![0u8; 16];
    last[15] = 1;
    let mut first = vec![0u8; 16];
    first[0] = 1;
    let zeros = hash_with_drawn("hunter42", Some(vec![0u8; 16])).unwrap();
    let one_last = hash_with_drawn("hunter42", Some(last)).unwrap();
    let one_first = hash_with_drawn("hunter42", Some(first)).unwrap();
    assert_eq!(one_last.split('$').nth(4), Some("AAAAAAAAAAAAAAAAAAAAAQ"));
    assert_eq!(one_first.split('$').nth(4), Some("AQAAAAAAAAAAAAAAAAAAAA"));
    assert_ne!(zeros, one_last);
    assert_ne!(zeros, one_first);
    assert_ne!(one_last, one_first);
}

#[test]
fn sixteen_drawn_bytes_serve_the_empty_and_a_long_password() {
    let long = "long password ".repeat(1000);
    for password in ["", "密码", long.as_str()] {
        let encoded = hash_with_drawn(password, Some(vec![7u8; 16])).unwrap();
        assert_eq!(verify(encoded, String::from(password)), Ok(true));
    }
}

#[test]
fn drawn_bytes_that_make_no_salt_are_a_hashing_failure() {
    // No bytes make the empty text, which is no salt.
    assert_eq!(
        hash_with_drawn("hunter42", Some(Vec::new())),
        Err(VaultError::HashingFailure)
    );
    // Three bytes make a salt that Argon2 finds too short.
    assert_eq!(
        hash_with_drawn("hunter42", Some(vec![0u8; 3])),
        Err(VaultError::HashingFailure)
    );
    // Forty-nine bytes are more than a salt text holds.
    assert_eq!(
        hash_with_drawn("hunter42", Some(vec![0u8; 49])),
        Err(VaultError::HashingFailure)
    );
}

#[test]
fn a_stored_hash_without_its_costs_is_malformed() {
    assert_eq!(verify(String::from(EXAMPLE_HASH), String::from("hunter42")), Ok(true));
    for stored in [
        "$argon2id$v=19$examplesaltvalue$F5THX2InSgzTJ87b9omSGIsNWAjS1gVsQ5t2a0gs7TY",
        "$argon2id$examplesaltvalue$F5THX2InSgzTJ87b9omSGIsNWAjS1gVsQ5t2a0gs7TY",
        "$argon2id$v=19$t=3,p=1$examplesaltvalue$F5THX2InSgzTJ87b9omSGIsNWAjS1gVsQ5t2a0gs7TY",
        "$argon2id$v=19$m=4096,p=1$examplesaltvalue$F5THX2InSgzTJ87b9omSGIsNWAjS1gVsQ5t2a0gs7TY",
        "$argon2id$v=19$m=4096,t=3$examplesaltvalue$F5THX2InSgzTJ87b9omSGIsNWAjS1gVsQ5t2a0gs7TY",
        "$argon2id$v=19$m=many,t=3,p=1$examplesaltvalue$F5THX2InSgzTJ87b9omSGIsNWAjS1gVsQ5t2a0gs7TY",
        "$argon2id$v=19$m=04096,t=3,p=1$examplesaltvalue$F5THX2InSgzTJ87b9omSGIsNWAjS1gVsQ5t2a0gs7TY",
    ] {
        for password in ["hunter42", "", "another"] {
            assert_eq!(
                verify(String::from(stored), String::from(password)),
                Err(VaultError::MalformedHashFailure),
                "{}",
                stored
            );
        }
    }
}

#[test]
fn a_complete_stored_hash_gives_an_answer_for_every_password() {
    for password in ["hunter42", "", "hunter43", "密码"] {
        assert_eq!(
            verify(String::from(EXAMPLE_HASH), String::from(password)),
            Ok(password == "hunter42"),
            "{}",
            password
        );
    }
}

#[test]
fn a_hash_verifies_against_its_password() {
    let encoded = hash(String::from("hunter42")).unwrap();
    assert_eq!(verify(encoded, String::from("hunter42")), Ok(true));
}

#[test]
fn a_hash_of_the_empty_password_verifies() {
    let encoded = hash(String::new()).unwrap();
    assert_eq!(verify(encoded.clone(), String::new()), Ok(true));
    assert_eq!(verify(encoded, String::from(" ")), Ok(false));
}

#[test]
fn a_hash_of_a_password_beyond_ascii_verifies() {
    let password = "pässwörd-密码-🔑";
    let encoded = hash(String::from(password)).unwrap();
    assert_eq!(verify(encoded.clone(), String::from(password)), Ok(true));
    assert_eq!(verify(encoded, String::from("password-密码-🔑")), Ok(false));
}

#[test]
fn a_hash_rejects_another_password() {
    let encoded = hash(String::from("first password")).unwrap();
    assert_eq!(verify(encoded, String::from("second password")), Ok(false));
}

#[test]
fn two_hashes_of_one_password_differ_and_both_verify() {
    let first = hash(String::from("same password")).unwrap();
    let second = hash(String::from("same password")).unwrap();
    assert_ne!(first, second);
    assert_eq!(verify(first, String::from("same password")), Ok(true));
    assert_eq!(verify(second, String::from("same password")), Ok(true));
}

#[test]
fn correct_horse_battery_staple() {
    let encoded = hash(String::from("correct horse battery staple")).unwrap();
    assert_eq!(
        verify(encoded.clone(), String::from("correct horse battery staple")),
        Ok(true)
    );
    assert_eq!(verify(encoded, String::from("wrong")), Ok(false));
}

#[test]
fn a_hash_is_a_self_describing_argon2id_text() {
    let encoded = hash(String::from("hunter42")).unwrap();
    let parts: Vec<&str> = encoded.split('$').collect();
    assert_eq!(parts.len(), 6);
    assert_eq!(parts[0], "");
    assert_eq!(parts[1], "argon2id");
    assert_eq!(parts[2], "v=19");
    assert_eq!(parts[3], "m=4096,t=3,p=1");
    // Sixteen random bytes and a digest of thirty-two, in unpadded base64.
    assert_eq!(parts[4].len(), 22);
    assert_eq!(parts[5].len(), 43);
}

#[test]
fn hashing_with_a_given_salt_is_repeatable() {
    let first = hash_with_salt("hunter42", EXAMPLE_SALT).unwrap();
    let second = hash_with_salt("hunter42", EXAMPLE_SALT).unwrap();
    assert_eq!(first, second);
    assert!(first.starts_with("$argon2id$v=19$m=4096,t=3,p=1$examplesaltvalue$"));
    assert_eq!(verify(first, String::from("hunter42")), Ok(true));
}

#[test]
fn hashing_with_a_given_salt_has_a_known_answer() {
    assert_eq!(
        hash_with_salt("hunter42", EXAMPLE_SALT),
        Ok(String::from(
            "$argon2id$v=19$m=4096,t=3,p=1$examplesaltvalue$F5THX2InSgzTJ87b9omSGIsNWAjS1gVsQ5t2a0gs7TY"
        ))
    );
}

#[test]
fn the_salt_given_is_the_salt_carried() {
    let one = hash_with_salt("hunter42", "c29tZXNhbHQAAAAAAAAAAA").unwrap();
    let other = hash_with_salt("hunter42", "YW5vdGhlcnNhbHQAAAAAAA").unwrap();
    assert_eq!(one.split('$').nth(4), Some("c29tZXNhbHQAAAAAAAAAAA"));
    assert_eq!(other.split('$').nth(4), Some("YW5vdGhlcnNhbHQAAAAAAA"));
    assert_ne!(one, other);
}

#[test]
fn a_salt_that_is_too_short_is_a_hashing_failure() {
    // Fewer than four characters: no salt at all.
    assert_eq!(hash_with_salt("hunter42", "abc"), Err(VaultError::HashingFailure));
    // Eight characters decode to six bytes, and Argon2 asks for eight.
    assert_eq!(
        hash_with_salt("hunter42", "somesalt"),
        Err(VaultError::HashingFailure)
    );
    assert_eq!(hash_with_salt("hunter42", ""), Err(VaultError::HashingFailure));
}

#[test]
fn a_salt_outside_the_alphabet_is_a_hashing_failure() {
    assert_eq!(
        hash_with_salt("hunter42", "example$salt$value"),
        Err(VaultError::HashingFailure)
    );
    assert_eq!(
        hash_with_salt("hunter42", "example salt value"),
        Err(VaultError::HashingFailure)
    );
}

#[test]
fn verify_accepts_a_reference_vector() {
    let stored = "$argon2d$v=16$m=32,t=2,p=3,data=Dw8PDw8P$AAAAAAAAAAA$KnH4gniiaFnDvlA1xev3yovC4cnrrI6tnHOYtmja90o";
    assert_eq!(verify(String::from(stored), String::from("password")), Ok(true));
    assert_eq!(verify(String::from(stored), String::from("sassword")), Ok(false));
}

#[test]
fn verify_accepts_a_reference_vector_of_argon2id() {
    let stored =
        "$argon2id$v=19$m=65536,t=2,p=1$c29tZXNhbHQ$CTFhFdXPJO1aFaMaO6Mm5c8y7cJHAph8ArZWb2GRPPc";
    assert_eq!(verify(String::from(stored), String::from("password")), Ok(true));
    assert_eq!(verify(String::from(stored), String::from("Password")), Ok(false));
}

#[test]
fn verify_rejects_a_digest_with_one_character_changed() {
    let stored = "$argon2d$v=16$m=32,t=2,p=3,data=Dw8PDw8P$AAAAAAAAAAA$LnH4gniiaFnDvlA1xev3yovC4cnrrI6tnHOYtmja90o";
    assert_eq!(verify(String::from(stored), String::from("password")), Ok(false));
}

#[test]
fn an_empty_stored_hash_is_malformed() {
    assert_eq!(
        verify(String::new(), String::from("password")),
        Err(VaultError::MalformedHashFailure)
    );
}

#[test]
fn text_that_is_no_hash_is_malformed() {
    for stored in [
        "not a hash",
        "argon2id$v=19$m=4096,t=3,p=1$c29tZXNhbHQAAAAAAAAAAA$KnH4gniiaFnDvlA1xev3yovC4cnrrI6tnHOYtmja90o",
        "$",
        "$argon2id$v=19$m=4096,t=3,p=1$c29tZXNhbHQAAAAAAAAAAA$KnH4gniiaFnDvlA1xev3yovC4cnrrI6tnHOYtmja90o$more",
        "$argon2id$v=19$m=4096,t=3,p=1$c29tZXNhbHQAAAAAAAAAAA$not base64!",
    ] {
        assert_eq!(
            verify(String::from(stored), String::from("password")),
            Err(VaultError::MalformedHashFailure),
            "{}",
            stored
        );
    }
}

#[test]
fn a_stored_hash_without_salt_or_digest_is_malformed() {
    for stored in [
        "$argon2id",
        "$argon2id$v=19",
        "$argon2id$v=19$m=4096,t=3,p=1",
        "$argon2id$v=19$m=4096,t=3,p=1$c29tZXNhbHQAAAAAAAAAAA",
    ] {
        assert_eq!(
            verify(String::from(stored), String::from("password")),
            Err(VaultError::MalformedHashFailure),
            "{}",
            stored
        );
    }
}

#[test]
fn a_hash_of_a_function_with_other_parameters_is_malformed() {
    let stored = "$pbkdf2-sha256$i=1000$c29tZXNhbHQAAAAAAAAAAA$KnH4gniiaFnDvlA1xev3yovC4cnrrI6tnHOYtmja90o";
    assert_eq!(
        verify(String::from(stored), String::from("password")),
        Err(VaultError::MalformedHashFailure)
    );
}

#[test]
fn a_complete_hash_that_argon2_cannot_use_accepts_no_password() {
    for stored in [
        // A function that Argon2 does not know.
        "$argon2zz$v=19$m=4096,t=3,p=1$examplesaltvalue$F5THX2InSgzTJ87b9omSGIsNWAjS1gVsQ5t2a0gs7TY",
        // A version that Argon2 does not know.
        "$argon2id$v=42$m=4096,t=3,p=1$examplesaltvalue$F5THX2InSgzTJ87b9omSGIsNWAjS1gVsQ5t2a0gs7TY",
        // Less memory than Argon2 works with.
        "$argon2id$v=19$m=1,t=3,p=1$examplesaltvalue$F5THX2InSgzTJ87b9omSGIsNWAjS1gVsQ5t2a0gs7TY",
    ] {
        assert_eq!(
            verify(String::from(stored), String::from("hunter42")),
            Ok(false),
            "{}",
            stored
        );
    }
}

#[test]
fn only_decoded_fields_with_costs_salt_and_digest_are_verifiable() {
    assert!(!verifiable(&None));
    assert!(!verifiable(&Some(fields(None, None))));
    assert!(!verifiable(&Some(fields(Some("c29tZXNhbHQ"), None))));
    assert!(!verifiable(&Some(fields(None, Some(vec![0u8; 32])))));
    assert!(verifiable(&Some(fields(Some("c29tZXNhbHQ"), Some(vec![0u8; 32])))));
    assert!(verifiable(&Some(fields(Some(""), Some(Vec::new())))));

    let mut without_memory = fields(Some("c29tZXNhbHQ"), Some(vec![0u8; 32]));
    without_memory.memory_cost = None;
    assert!(!verifiable(&Some(without_memory)));
    let mut without_time = fields(Some("c29tZXNhbHQ"), Some(vec![0u8; 32]));
    without_time.time_cost = None;
    assert!(!verifiable(&Some(without_time)));
    let mut without_lanes = fields(Some("c29tZXNhbHQ"), Some(vec![0u8; 32]));
    without_lanes.parallelism = None;
    assert!(!verifiable(&Some(without_lanes)));
    let mut without_version = fields(Some("c29tZXNhbHQ"), Some(vec![0u8; 32]));
    without_version.version = None;
    assert!(verifiable(&Some(without_version)));
}

#[test]
fn what_the_primitives_hand_back_becomes_the_outcome() {
    assert_eq!(
        encoded_or_failure(Some(String::from("$argon2id$v=19"))),
        Ok(String::from("$argon2id$v=19"))
    );
    assert_eq!(encoded_or_failure(None), Err(VaultError::HashingFailure));
    assert_eq!(answer_or_failure(Some(true)), Ok(true));
    assert_eq!(answer_or_failure(Some(false)), Ok(false));
    assert_eq!(answer_or_failure(None), Err(VaultError::MalformedHashFailure));
}
