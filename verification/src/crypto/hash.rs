//! Password hashing with Argon2id over a Base64 salt, and its check in
//! constant time.
use crate::crypto::primitives::{
    argon2_key, argon2id_hash, ARGON2_LANES, ARGON2_MEMORY_KIB, ARGON2_PASSES, base64_decode, base64_encode, base64_standard_bytes,
    base64_standard_text, constant_time_eq, fill_random, ARGON2_MAX_INPUT, ARGON2_MIN_SALT,
};
use crate::error::CryptoError;
use vstd::prelude::*;
use vstd::string::StringSliceAdditionalSpecFns;

verus! {

broadcast use vstd::string::group_string_axioms;

/// The stored hash of `password` with the Base64 salt `salt_text`: the
/// Base64 text of the Argon2id output, when the salt decodes and is
/// accepted.
pub open spec fn password_hash_text(password: Seq<char>, salt_text: Seq<char>) -> Option<Seq<char>> {
    match base64_standard_bytes(vstd::utf8::encode_utf8(salt_text)) {
        None => None,
        Some(salt) => if vstd::utf8::encode_utf8(password).len() > ARGON2_MAX_INPUT || salt.len()
            < ARGON2_MIN_SALT || salt.len() > ARGON2_MAX_INPUT {
            None
        } else {
            Some(base64_standard_text(argon2_key(vstd::utf8::encode_utf8(password), salt)))
        },
    }
}

/// Whether `password` matches the stored hash `hash_text` with the salt
/// `salt_text`; `None` when either text does not decode or the salt is
/// refused.
pub open spec fn password_matches(password: Seq<char>, hash_text: Seq<char>, salt_text: Seq<char>) -> Option<bool> {
    match base64_standard_bytes(vstd::utf8::encode_utf8(hash_text)) {
        None => None,
        Some(expected) => match base64_standard_bytes(vstd::utf8::encode_utf8(salt_text)) {
            None => None,
            Some(salt) => if vstd::utf8::encode_utf8(password).len() > ARGON2_MAX_INPUT || salt.len()
                < ARGON2_MIN_SALT || salt.len() > ARGON2_MAX_INPUT {
                None
            } else {
                Some(expected == argon2_key(vstd::utf8::encode_utf8(password), salt))
            },
        },
    }
}

/// A random 16-byte salt as Base64 text.
pub fn generate_salt() -> (r: String)
    ensures
        base64_standard_bytes(vstd::utf8::encode_utf8(r@)) matches Some(s) && s.len() == 16,
{
    let mut salt = [0u8; 16];
    fill_random(&mut salt);
    base64_encode(&salt)
}

/// The stored hash of `password` with the Base64 salt. Checking the
/// password against the hash it gives succeeds.
pub fn hash_password(password: &str, salt_b64: &str) -> (r: Result<String, CryptoError>)
    ensures
        base64_standard_bytes(salt_b64.spec_bytes()) is None ==> (r matches Err(CryptoError::Encoding(_))),
        base64_standard_bytes(salt_b64.spec_bytes()) is Some ==> (match password_hash_text(password@, salt_b64@) {
            Some(h) => r matches Ok(s) && s@ == h,
            None => r matches Err(CryptoError::PasswordHash(_)),
        }),
        r matches Ok(h) ==> password_matches(password@, h@, salt_b64@) == Some(true),
{
    let salt = match base64_decode(salt_b64) {
        Ok(s) => s,
        Err(m) => return Err(CryptoError::Encoding(m)),
    };
    match argon2id_hash(password.as_bytes(), &salt, ARGON2_MEMORY_KIB, ARGON2_PASSES, ARGON2_LANES) {
        Ok(hash) => {
            let text = base64_encode(&hash);
            Ok(text)
        },
        Err(m) => Err(CryptoError::PasswordHash(m)),
    }
}

/// Checks `password` against the stored hash and salt, comparing in
/// constant time.
pub fn verify_password(password: &str, hash_b64: &str, salt_b64: &str) -> (r: Result<bool, CryptoError>)
    ensures
        base64_standard_bytes(hash_b64.spec_bytes()) is None ==> (r matches Err(CryptoError::Encoding(_))),
        base64_standard_bytes(hash_b64.spec_bytes()) is Some && base64_standard_bytes(
            salt_b64.spec_bytes(),
        ) is None ==> (r matches Err(CryptoError::Encoding(_))),
        match password_matches(password@, hash_b64@, salt_b64@) {
            Some(b) => r == Ok::<bool, CryptoError>(b),
            None => r is Err,
        },
{
    let expected = match base64_decode(hash_b64) {
        Ok(e) => e,
        Err(m) => return Err(CryptoError::Encoding(m)),
    };
    let salt = match base64_decode(salt_b64) {
        Ok(s) => s,
        Err(m) => return Err(CryptoError::Encoding(m)),
    };
    match argon2id_hash(password.as_bytes(), &salt, ARGON2_MEMORY_KIB, ARGON2_PASSES, ARGON2_LANES) {
        Ok(actual) => Ok(constant_time_eq(&expected, &actual)),
        Err(m) => Err(CryptoError::PasswordHash(m)),
    }
}

} // verus!
