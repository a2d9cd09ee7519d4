//! The cryptographic primitives the key handling rests on: Base64 with the
//! standard alphabet and padding, AES-256-GCM, Argon2id, constant-time
//! comparison, randomness, HS256 tokens and the clock.
//!
//! Each function here makes one call into an outside crate (or std) and
//! states what that crate's source and documentation show of it. Results
//! that take pages to define are named by the uninterpreted functions below.
use aes_gcm::aead::{Aead, AeadCore, KeyInit};
use base64::Engine;
use rand::RngCore;
use subtle::ConstantTimeEq;
use vstd::prelude::*;
use vstd::string::StringSliceAdditionalSpecFns;

verus! {

broadcast use vstd::string::group_string_axioms;

/// Largest plaintext AES-256-GCM seals, in bytes (`aes_gcm::P_MAX`).
pub const AES_GCM_P_MAX: u64 = 68719476736;

/// Longest password and salt Argon2 takes, in bytes.
pub const ARGON2_MAX_INPUT: usize = 0xFFFF_FFFF;

/// Shortest salt Argon2 takes, in bytes.
pub const ARGON2_MIN_SALT: usize = 8;

/// Base64 text of `data`: standard alphabet, with padding.
pub uninterp spec fn base64_standard_text(data: Seq<u8>) -> Seq<char>;

/// The bytes that the Base64 text `text` (as bytes) stands for, if it is
/// valid Base64 of the standard alphabet with padding.
pub uninterp spec fn base64_standard_bytes(text: Seq<u8>) -> Option<Seq<u8>>;

/// AES-256-GCM encryption of `plaintext` under `key` and `nonce`, without
/// associated data: the ciphertext followed by the 16-byte tag.
pub uninterp spec fn aes256gcm_sealed(key: Seq<u8>, nonce: Seq<u8>, plaintext: Seq<u8>) -> Seq<u8>;

/// AES-256-GCM decryption of `sealed` under `key` and `nonce`, without
/// associated data; `None` when the tag does not authenticate it.
pub uninterp spec fn aes256gcm_opened(key: Seq<u8>, nonce: Seq<u8>, sealed: Seq<u8>) -> Option<Seq<u8>>;

/// Memory the library's Argon2id runs with, in KiB.
pub const ARGON2_MEMORY_KIB: u32 = 65536;

/// Passes the library's Argon2id makes.
pub const ARGON2_PASSES: u32 = 3;

/// Lanes the library's Argon2id runs in.
pub const ARGON2_LANES: u32 = 4;

/// The 32-byte Argon2id (version 0x13) output for `password` and `salt`
/// with `m_cost` KiB of memory, `t_cost` passes and `p_cost` lanes.
pub uninterp spec fn argon2id_output(password: Seq<u8>, salt: Seq<u8>, m_cost: u32, t_cost: u32, p_cost: u32) -> Seq<u8>;

/// Argon2id with the library's settings.
pub open spec fn argon2_key(password: Seq<u8>, salt: Seq<u8>) -> Seq<u8> {
    argon2id_output(password, salt, ARGON2_MEMORY_KIB, ARGON2_PASSES, ARGON2_LANES)
}

/// Settings `argon2::Params::new` accepts: at least one pass, between one
/// lane and `0xFFFFFF` lanes, and at least 8 KiB of memory per lane.
pub open spec fn argon2_params_valid(m_cost: u32, t_cost: u32, p_cost: u32) -> bool {
    &&& t_cost >= 1
    &&& 1 <= p_cost <= 0xFFFFFF
    &&& m_cost >= 8 * p_cost
}

/// The HS256-signed JSON Web Token with claims `sub`, `iat` and `exp`,
/// signed with `secret`.
pub uninterp spec fn hs256_token(sub: int, iat: int, exp: int, secret: Seq<u8>) -> Seq<char>;

/// The `sub` claim, read as an `i64`, of the claims that
/// `jsonwebtoken::decode` with HS256 validation reads from `token` under
/// `secret` when it accepts the token (`None` where the claims have no
/// such integer member).
pub uninterp spec fn hs256_token_subject(token: Seq<char>, secret: Seq<u8>) -> Option<i64>;

/// The text holds two dots (a token of fewer parts is refused before
/// anything else is read of it).
pub open spec fn has_two_dots(t: Seq<char>) -> bool {
    exists|i: int, j: int| 0 <= i < j < t.len() && t[i] == '.' && t[j] == '.'
}

/// A decoding of `token` whose text lacks two dots is the refusal
/// `InvalidToken`.
pub open spec fn decoded_shape(token: Seq<char>, r: Result<Option<i64>, String>) -> bool {
    !has_two_dots(token) ==> (r matches Err(m) && m@ == "InvalidToken"@)
}

/// Base64 text of `data`: URL-safe alphabet, without padding.
pub uninterp spec fn base64_url_nopad_text(data: Seq<u8>) -> Seq<char>;

/// `Engine::encode` of base64's `URL_SAFE_NO_PAD` engine.
#[verifier::external_body]
pub(crate) fn base64_url_encode(data: &[u8]) -> (r: String)
    ensures
        r@ == base64_url_nopad_text(data@),
{
    base64::engine::general_purpose::URL_SAFE_NO_PAD.encode(data)
}

/// `Engine::encode` of base64's `STANDARD` engine. The text is ASCII, four
/// characters for each started group of three bytes (`encoded_len` with
/// padding); its documentation and tests state that decoding the text
/// gives back the bytes.
#[verifier::external_body]
pub(crate) fn base64_encode(data: &[u8]) -> (r: String)
    ensures
        r@ == base64_standard_text(data@),
        vstd::utf8::is_ascii_chars(r@),
        r@.len() == 4 * ((data@.len() + 2) / 3),
        base64_standard_bytes(vstd::utf8::encode_utf8(r@)) == Some(data@),
{
    base64::engine::general_purpose::STANDARD.encode(data)
}

/// `Engine::decode` of base64's `STANDARD` engine on the bytes of `text`;
/// on failure the error's display text, which this contract leaves open.
#[verifier::external_body]
pub(crate) fn base64_decode(text: &str) -> (r: Result<Vec<u8>, String>)
    ensures
        match base64_standard_bytes(text.spec_bytes()) {
            Some(d) => r matches Ok(v) && v@ == d,
            None => r is Err,
        },
{
    match base64::engine::general_purpose::STANDARD.decode(text) {
        Ok(v) => Ok(v),
        Err(e) => Err(e.to_string()),
    }
}

/// `Aes256Gcm::new_from_slice` followed by `Aead::encrypt` with a 12-byte
/// nonce. The key is refused with "Invalid Length" unless it has 32 bytes;
/// encryption fails only for plaintexts over `P_MAX` bytes, and what it
/// returns decrypts under the same key and nonce to the plaintext.
#[verifier::external_body]
pub(crate) fn aes_gcm_seal(key: &[u8], nonce: &[u8; 12], plaintext: &[u8]) -> (r: Result<Option<Vec<u8>>, String>)
    ensures
        key.len() != 32 <==> r is Err,
        r matches Err(m) ==> m@ == "Invalid Length"@,
        key.len() == 32 && plaintext.len() <= AES_GCM_P_MAX ==> r matches Ok(Some(_)),
        r matches Ok(Some(c)) ==> c@ == aes256gcm_sealed(key@, nonce@, plaintext@) && c.len()
            == plaintext.len() + 16 && aes256gcm_opened(key@, nonce@, c@) == Some(plaintext@),
{
    match aes_gcm::Aes256Gcm::new_from_slice(key) {
        Ok(cipher) => Ok(cipher.encrypt(aes_gcm::Nonce::from_slice(nonce), plaintext).ok()),
        Err(e) => Err(e.to_string()),
    }
}

/// `Aes256Gcm::new_from_slice` followed by `Aead::decrypt` with the first
/// 12 bytes of `nonce`. The key is refused with "Invalid Length" unless it
/// has 32 bytes.
#[verifier::external_body]
pub(crate) fn aes_gcm_open(key: &[u8], nonce: &[u8], sealed: &[u8]) -> (r: Result<Option<Vec<u8>>, String>)
    requires
        nonce.len() == 12,
    ensures
        key.len() != 32 <==> r is Err,
        r matches Err(m) ==> m@ == "Invalid Length"@,
        r matches Ok(o) ==> match aes256gcm_opened(key@, nonce@, sealed@) {
            Some(p) => o matches Some(v) && v@ == p,
            None => o is None,
        },
{
    match aes_gcm::Aes256Gcm::new_from_slice(key) {
        Ok(cipher) => Ok(cipher.decrypt(aes_gcm::Nonce::from_slice(nonce), sealed).ok()),
        Err(e) => Err(e.to_string()),
    }
}

/// `AeadCore::generate_nonce` of AES-256-GCM with the operating system's
/// random source: twelve random bytes, of which nothing is stated.
#[verifier::external_body]
pub(crate) fn random_nonce() -> (r: [u8; 12])
{
    let n = aes_gcm::Aes256Gcm::generate_nonce(&mut rand::rngs::OsRng);
    n.into()
}

/// `RngCore::fill_bytes` of `OsRng`: overwrites `buf` with random bytes, of
/// which nothing is stated but the length.
#[verifier::external_body]
pub(crate) fn fill_random(buf: &mut [u8])
    ensures
        final(buf)@.len() == old(buf)@.len(),
{
    rand::rngs::OsRng.fill_bytes(buf)
}

/// What Argon2id with the settings given gives for `password` and
/// `salt`: the output, or the text of the refusal.
pub open spec fn argon2_expected(password: Seq<u8>, salt: Seq<u8>, m_cost: u32, t_cost: u32, p_cost: u32) -> Result<Seq<u8>, Seq<char>> {
    if password.len() > ARGON2_MAX_INPUT {
        Err("password is too long"@)
    } else if salt.len() < ARGON2_MIN_SALT {
        Err("salt is too short"@)
    } else if salt.len() > ARGON2_MAX_INPUT {
        Err("salt is too long"@)
    } else {
        Ok(argon2id_output(password, salt, m_cost, t_cost, p_cost))
    }
}

/// The view of an Argon2 outcome.
pub open spec fn argon2_result_view(r: Result<[u8; 32], String>) -> Result<Seq<u8>, Seq<char>> {
    match r {
        Ok(k) => Ok(k@),
        Err(m) => Err(m@),
    }
}

/// `Argon2::hash_password_into` for Argon2id version 0x13 with `m_cost`
/// KiB, `t_cost` passes, `p_cost` lanes and a 32-byte output (settings
/// `Params::new` accepts). It refuses a password or salt over `u32::MAX`
/// bytes and a salt under 8 bytes, with the error texts of argon2's
/// `Error`.
#[verifier::external_body]
pub(crate) fn argon2id_hash(password: &[u8], salt: &[u8], m_cost: u32, t_cost: u32, p_cost: u32) -> (r: Result<[u8; 32], String>)
    requires
        argon2_params_valid(m_cost, t_cost, p_cost),
    ensures
        argon2_result_view(r) == argon2_expected(password@, salt@, m_cost, t_cost, p_cost),
        r matches Ok(k) ==> k@ == argon2id_output(password@, salt@, m_cost, t_cost, p_cost),
{
    let params = match argon2::Params::new(m_cost, t_cost, p_cost, Some(32)) {
        Ok(p) => p,
        Err(e) => return Err(e.to_string()),
    };
    let hasher = argon2::Argon2::new(argon2::Algorithm::Argon2id, argon2::Version::V0x13, params);
    let mut out = [0u8; 32];
    match hasher.hash_password_into(password, salt, &mut out) {
        Ok(()) => Ok(out),
        Err(e) => Err(e.to_string()),
    }
}

/// `ConstantTimeEq::ct_eq` of subtle on byte slices, converted to `bool`:
/// equal lengths and equal bytes.
#[verifier::external_body]
pub(crate) fn constant_time_eq(a: &[u8], b: &[u8]) -> (r: bool)
    ensures
        r == (a@ == b@),
{
    a.ct_eq(b).into()
}

/// `String::from_utf8` of std: the text the bytes encode, or the error's
/// display text (left open here) if they are not UTF-8.
#[verifier::external_body]
pub(crate) fn string_from_utf8(bytes: Vec<u8>) -> (r: Result<String, String>)
    ensures
        r is Ok <==> vstd::utf8::valid_utf8(bytes@),
        r matches Ok(s) ==> s@ == vstd::utf8::decode_utf8(bytes@),
{
    match String::from_utf8(bytes) {
        Ok(s) => Ok(s),
        Err(e) => Err(e.to_string()),
    }
}

/// `jsonwebtoken::encode` with an HS256 header and the claims `sub`, `exp`
/// and `iat`, signed with `secret`. It always succeeds: an HMAC key from
/// `EncodingKey::from_secret` suits HS256, serialising a header or a JSON
/// map cannot fail, and HMAC signing returns `Ok`. Decoding the token
/// under the same secret, where it is accepted, reads back the `sub`
/// claim written.
#[verifier::external_body]
pub(crate) fn hs256_encode(sub: i64, iat: i64, exp: i64, secret: &[u8]) -> (r: Result<String, String>)
    ensures
        r is Ok,
        r matches Ok(t) ==> t@ == hs256_token(sub as int, iat as int, exp as int, secret@),
        r matches Ok(t) ==> hs256_token_subject(t@, secret@) == Some(sub),
{
    let mut claims = serde_json::Map::new();
    claims.insert("sub".to_owned(), serde_json::Value::from(sub));
    claims.insert("exp".to_owned(), serde_json::Value::from(exp));
    claims.insert("iat".to_owned(), serde_json::Value::from(iat));
    let header = jsonwebtoken::Header::new(jsonwebtoken::Algorithm::HS256);
    match jsonwebtoken::encode(&header, &claims, &jsonwebtoken::EncodingKey::from_secret(secret)) {
        Ok(t) => Ok(t),
        Err(e) => Err(e.to_string()),
    }
}

/// `jsonwebtoken::decode` with HS256 validation (which checks the expiry
/// against the current time) under `secret`, and the `sub` claim as an
/// `i64` if it is one. Whether a token is accepted depends on the clock
/// and is left open; an accepted token gives the subject its claims hold,
/// and a token without two dots is refused as `InvalidToken` before the
/// clock is read.
#[verifier::external_body]
pub(crate) fn hs256_decode_subject(token: &str, secret: &[u8]) -> (r: Result<Option<i64>, String>)
    ensures
        r matches Ok(subject) ==> subject == hs256_token_subject(token@, secret@),
        decoded_shape(token@, r),
{
    let validation = jsonwebtoken::Validation::new(jsonwebtoken::Algorithm::HS256);
    let key = jsonwebtoken::DecodingKey::from_secret(secret);
    match jsonwebtoken::decode::<serde_json::Value>(token, &key, &validation) {
        Ok(data) => Ok(data.claims["sub"].as_i64()),
        Err(e) => Err(e.to_string()),
    }
}

/// `chrono::Utc::now().timestamp()`: the current Unix time in seconds, of
/// which nothing is stated.
#[verifier::external_body]
pub(crate) fn unix_now() -> (r: i64)
{
    chrono::Utc::now().timestamp()
}

} // verus!
