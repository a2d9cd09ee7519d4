//! Sealed texts: the Base64 text of a 12-byte nonce followed by the
//! AES-256-GCM ciphertext and tag of a payload. The keys of the service
//! store secrets this way.
use crate::crypto::primitives::{
    aes256gcm_opened, aes256gcm_sealed, aes_gcm_open, aes_gcm_seal, base64_decode, base64_encode,
    base64_standard_bytes, base64_standard_text, random_nonce, string_from_utf8, AES_GCM_P_MAX,
};
use vstd::prelude::*;
use vstd::string::StringSliceAdditionalSpecFns;

verus! {

broadcast use vstd::string::group_string_axioms;

/// What unsealing a sealed text gives.
pub enum Unsealed {
    /// The text is not Base64.
    BadBase64,
    /// The decoded bytes are shorter than a nonce.
    TooShort,
    /// The ciphertext does not authenticate under the key.
    Rejected,
    /// The payload.
    Payload(Seq<u8>),
}

/// Unsealing the sealed text `text` with `key`.
pub open spec fn unseal(key: Seq<u8>, text: Seq<char>) -> Unsealed {
    match base64_standard_bytes(vstd::utf8::encode_utf8(text)) {
        None => Unsealed::BadBase64,
        Some(c) => if c.len() < 12 {
            Unsealed::TooShort
        } else {
            match aes256gcm_opened(key, c.take(12), c.skip(12)) {
                None => Unsealed::Rejected,
                Some(p) => Unsealed::Payload(p),
            }
        },
    }
}

/// What opening a sealed text as a string gives.
pub enum Opened {
    BadBase64,
    TooShort,
    Rejected,
    /// The payload is not UTF-8.
    NotText,
    /// The text of the payload.
    Text(Seq<char>),
}

/// Opening the sealed text `text` with `key` as a string.
pub open spec fn open_sealed(key: Seq<u8>, text: Seq<char>) -> Opened {
    match unseal(key, text) {
        Unsealed::BadBase64 => Opened::BadBase64,
        Unsealed::TooShort => Opened::TooShort,
        Unsealed::Rejected => Opened::Rejected,
        Unsealed::Payload(p) => if vstd::utf8::valid_utf8(p) {
            Opened::Text(vstd::utf8::decode_utf8(p))
        } else {
            Opened::NotText
        },
    }
}

/// `text` seals `payload` under `key` with some 12-byte nonce.
pub open spec fn sealed_with_some_nonce(key: Seq<u8>, payload: Seq<u8>, text: Seq<char>) -> bool {
    exists|nonce: Seq<u8>|
        nonce.len() == 12 && text == base64_standard_text(nonce + aes256gcm_sealed(key, nonce, payload))
}

/// Seals `payload` under `key` with a fresh random nonce. `Err(Some(m))`
/// when the key is refused (it must have 32 bytes) with `m`; `Err(None)`
/// when the payload is too long for AES-GCM. The sealed text unseals with
/// the same key to the payload.
pub fn seal_bytes(key: &[u8], payload: &[u8]) -> (r: Result<String, Option<String>>)
    ensures
        key.len() != 32 <==> (r matches Err(Some(_))),
        r matches Err(Some(m)) ==> m@ == "Invalid Length"@,
        key.len() == 32 && payload.len() <= AES_GCM_P_MAX ==> r is Ok,
        r matches Ok(c) ==> c@.len() > 0,
        r matches Ok(c) ==> unseal(key@, c@) == Unsealed::Payload(payload@),
        r matches Ok(c) ==> sealed_with_some_nonce(key@, payload@, c@),
{
    let nonce = random_nonce();
    match aes_gcm_seal(key, &nonce, payload) {
        Err(m) => Err(Some(m)),
        Ok(None) => Err(None),
        Ok(Some(sealed)) => {
            let mut combined: Vec<u8> = Vec::new();
            let mut i: usize = 0;
            while i < 12
                invariant
                    i <= 12,
                    combined@ == nonce@.take(i as int),
                decreases 12 - i,
            {
                combined.push(nonce[i]);
                assert(nonce@.take(i + 1) =~= nonce@.take(i as int).push(nonce@[i as int]));
                i = i + 1;
            }
            let mut j: usize = 0;
            while j < sealed.len()
                invariant
                    j <= sealed.len(),
                    combined@ == nonce@ + sealed@.take(j as int),
                decreases sealed.len() - j,
            {
                combined.push(sealed[j]);
                assert(sealed@.take(j + 1) =~= sealed@.take(j as int).push(sealed@[j as int]));
                j = j + 1;
            }
            assert(sealed@.take(sealed.len() as int) =~= sealed@);
            assert(nonce@.take(12) =~= nonce@);
            let text = base64_encode(&combined);
            proof {
                let c = combined@;
                assert(c.take(12) =~= nonce@);
                assert(c.skip(12) =~= sealed@);
                assert(sealed_with_some_nonce(key@, payload@, text@)) by {
                    assert(nonce@.len() == 12);
                }
            }
            Ok(text)
        },
    }
}

/// Seals the UTF-8 bytes of `plaintext`; the sealed text opens with the
/// same key to the plaintext.
pub fn seal_text(key: &[u8], plaintext: &str) -> (r: Result<String, Option<String>>)
    ensures
        key.len() != 32 <==> (r matches Err(Some(_))),
        r matches Err(Some(m)) ==> m@ == "Invalid Length"@,
        key.len() == 32 && vstd::utf8::encode_utf8(plaintext@).len() <= AES_GCM_P_MAX ==> r is Ok,
        r matches Ok(c) ==> c@.len() > 0,
        r matches Ok(c) ==> open_sealed(key@, c@) == Opened::Text(plaintext@),
        r matches Ok(c) ==> sealed_with_some_nonce(key@, vstd::utf8::encode_utf8(plaintext@), c@),
{
    let r = seal_bytes(key, plaintext.as_bytes());
    proof {
        vstd::utf8::encode_utf8_valid_utf8(plaintext@);
        vstd::utf8::encode_utf8_decode_utf8(plaintext@);
    }
    r
}

/// The outcome of unsealing, with the payload.
pub enum UnsealResult {
    BadBase64(String),
    TooShort,
    Rejected,
    Payload(Vec<u8>),
}

impl UnsealResult {
    /// This outcome is the unsealing `u`.
    pub open spec fn matches(self, u: Unsealed) -> bool {
        match self {
            UnsealResult::BadBase64(_) => u is BadBase64,
            UnsealResult::TooShort => u is TooShort,
            UnsealResult::Rejected => u is Rejected,
            UnsealResult::Payload(p) => u == Unsealed::Payload(p@),
        }
    }
}

/// Unseals `text` with `key`, as the keys do: decode, check the length,
/// then decrypt, where a key of other than 32 bytes is refused (`Err`, with
/// the cipher's error text).
pub fn unseal_text(key: &[u8], text: &str) -> (r: Result<UnsealResult, String>)
    ensures
        r matches Err(m) ==> key.len() != 32 && m@ == "Invalid Length"@ && !(unseal(
            key@,
            text@,
        ) is BadBase64) && !(unseal(key@, text@) is TooShort),
        r matches Ok(o) ==> o.matches(unseal(key@, text@)) && (key.len() == 32 || unseal(
            key@,
            text@,
        ) is BadBase64 || unseal(key@, text@) is TooShort),
        key.len() == 32 ==> r is Ok,
{
    let combined = match base64_decode(text) {
        Err(m) => return Ok(UnsealResult::BadBase64(m)),
        Ok(c) => c,
    };
    if combined.len() < 12 {
        return Ok(UnsealResult::TooShort);
    }
    let mut nonce: Vec<u8> = Vec::new();
    let mut rest: Vec<u8> = Vec::new();
    let mut i: usize = 0;
    while i < combined.len()
        invariant
            12 <= combined.len(),
            i <= combined.len(),
            i <= 12 ==> nonce@ == combined@.take(i as int) && rest@.len() == 0,
            i > 12 ==> nonce@ == combined@.take(12) && rest@ == combined@.subrange(12, i as int),
        decreases combined.len() - i,
    {
        if i < 12 {
            nonce.push(combined[i]);
            assert(combined@.take(i + 1) =~= combined@.take(i as int).push(combined@[i as int]));
        } else {
            rest.push(combined[i]);
            assert(combined@.subrange(12, i + 1) =~= combined@.subrange(12, i as int).push(
                combined@[i as int],
            ));
        }
        i = i + 1;
    }
    assert(rest@ =~= combined@.skip(12));
    match aes_gcm_open(key, &nonce, &rest) {
        Err(m) => Err(m),
        Ok(None) => Ok(UnsealResult::Rejected),
        Ok(Some(plain)) => Ok(UnsealResult::Payload(plain)),
    }
}

/// The outcome of opening a sealed text as a string, with the outside
/// error texts.
pub enum OpenResult {
    BadBase64(String),
    TooShort,
    Rejected,
    NotText(String),
    Text(String),
}

impl OpenResult {
    /// This outcome is the opening `o`.
    pub open spec fn matches(self, o: Opened) -> bool {
        match self {
            OpenResult::BadBase64(_) => o is BadBase64,
            OpenResult::TooShort => o is TooShort,
            OpenResult::Rejected => o is Rejected,
            OpenResult::NotText(_) => o is NotText,
            OpenResult::Text(s) => o == Opened::Text(s@),
        }
    }
}

/// Opens `text` with `key` as a string; `Err` as for `unseal_text`.
pub fn open_text(key: &[u8], text: &str) -> (r: Result<OpenResult, String>)
    ensures
        r matches Err(m) ==> key.len() != 32 && m@ == "Invalid Length"@,
        r matches Ok(o) ==> o.matches(open_sealed(key@, text@)),
        key.len() == 32 ==> r is Ok,
{
    match unseal_text(key, text) {
        Err(m) => Err(m),
        Ok(UnsealResult::BadBase64(m)) => Ok(OpenResult::BadBase64(m)),
        Ok(UnsealResult::TooShort) => Ok(OpenResult::TooShort),
        Ok(UnsealResult::Rejected) => Ok(OpenResult::Rejected),
        Ok(UnsealResult::Payload(plain)) => match string_from_utf8(plain) {
            Ok(s) => Ok(OpenResult::Text(s)),
            Err(m) => Ok(OpenResult::NotText(m)),
        },
    }
}

} // verus!
