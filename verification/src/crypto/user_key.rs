//! The per-user key, derived from the password, that encrypts the user's
//! platform cookies.
use crate::crypto::primitives::{
    argon2_key, argon2id_hash, ARGON2_LANES, ARGON2_MEMORY_KIB, ARGON2_PASSES, base64_decode, base64_standard_bytes, AES_GCM_P_MAX,
    ARGON2_MAX_INPUT,
};
use crate::crypto::sealed::{open_sealed, open_text, seal_text, sealed_with_some_nonce, OpenResult, Opened};
use crate::error::CryptoError;
use crate::text::{push_str, string_of};
use vstd::prelude::*;
use vstd::string::StringSliceAdditionalSpecFns;

verus! {

broadcast use vstd::string::group_string_axioms;

/// A user's 32-byte encryption key.
#[derive(Clone)]
pub struct UserKey {
    key: [u8; 32],
}

impl View for UserKey {
    type V = Seq<u8>;

    closed spec fn view(&self) -> Seq<u8> {
        self.key@
    }
}

/// What deriving a user key from a password and a Base64 salt gives: the
/// key bytes, or the refusal.
pub open spec fn derived_key(password: Seq<char>, salt_text: Seq<char>) -> Option<Seq<u8>> {
    match base64_standard_bytes(vstd::utf8::encode_utf8(salt_text)) {
        None => None,
        Some(salt) => if salt.len() < 8 || vstd::utf8::encode_utf8(password).len() > ARGON2_MAX_INPUT
            || salt.len() > ARGON2_MAX_INPUT {
            None
        } else {
            Some(argon2_key(vstd::utf8::encode_utf8(password), salt))
        },
    }
}

impl UserKey {
    /// Derives the key from the password with Argon2id over the Base64
    /// salt; refused when the salt is not Base64 or shorter than 8 bytes.
    pub fn derive_from_password(password: &str, salt_b64: &str) -> (r: Result<UserKey, CryptoError>)
        ensures
            base64_standard_bytes(salt_b64.spec_bytes()) is None ==> (r matches Err(
                CryptoError::Encoding(_),
            )),
            (base64_standard_bytes(salt_b64.spec_bytes()) matches Some(s) && s.len() < 8) ==> (
            r matches Err(CryptoError::Format(m)) && m@ == "盐值长度不足，至少需要8字节"@),
            r is Ok <==> derived_key(password@, salt_b64@) is Some,
            r matches Ok(k) ==> Some(k@) == derived_key(password@, salt_b64@),
    {
        let salt = match base64_decode(salt_b64) {
            Ok(s) => s,
            Err(m) => return Err(CryptoError::Encoding(m)),
        };
        if salt.len() < 8 {
            return Err(CryptoError::Format("盐值长度不足，至少需要8字节".to_owned()));
        }
        match argon2id_hash(password.as_bytes(), &salt, ARGON2_MEMORY_KIB, ARGON2_PASSES, ARGON2_LANES) {
            Ok(key) => Ok(UserKey { key }),
            Err(m) => {
                let mut out: Vec<char> = Vec::new();
                push_str(&mut out, "密钥派生失败: ");
                push_str(&mut out, m.as_str());
                Err(CryptoError::Format(string_of(&out)))
            },
        }
    }

    /// Seals `plaintext` under this key with a fresh nonce. The sealed text
    /// opens with this key to the plaintext.
    pub fn encrypt(&self, plaintext: &str) -> (r: Result<String, CryptoError>)
        ensures
            vstd::utf8::encode_utf8(plaintext@).len() <= AES_GCM_P_MAX ==> r is Ok,
            r matches Ok(c) ==> open_sealed(self@, c@) == Opened::Text(plaintext@),
            r matches Ok(c) ==> sealed_with_some_nonce(self@, vstd::utf8::encode_utf8(plaintext@), c@),
            r matches Err(e) ==> (e matches CryptoError::Encrypt(m) && m@ == "加密失败: aead::Error"@),
    {
        match seal_text(&self.key, plaintext) {
            Ok(c) => Ok(c),
            Err(Some(m)) => {
                let mut out: Vec<char> = Vec::new();
                push_str(&mut out, "密钥长度无效: ");
                push_str(&mut out, m.as_str());
                Err(CryptoError::Encrypt(string_of(&out)))
            },
            Err(None) => Err(CryptoError::Encrypt("加密失败: aead::Error".to_owned())),
        }
    }

    /// Opens a sealed text with this key.
    pub fn decrypt(&self, encrypted: &str) -> (r: Result<String, CryptoError>)
        ensures
            match open_sealed(self@, encrypted@) {
                Opened::BadBase64 => r matches Err(CryptoError::Encoding(_)),
                Opened::TooShort => r matches Err(CryptoError::Format(m)) && m@ == "密文格式错误"@,
                Opened::Rejected => r matches Err(CryptoError::Decrypt(m)) && m@
                    == "解密失败: aead::Error"@,
                Opened::NotText => r matches Err(CryptoError::Format(m)) && m@.len() >= 14
                    && m@.take(14) == "解密后数据不是有效字符串: "@,
                Opened::Text(p) => r matches Ok(s) && s@ == p,
            },
    {
        match open_text(&self.key, encrypted) {
            Err(m) => {
                let mut out: Vec<char> = Vec::new();
                push_str(&mut out, "密钥长度无效: ");
                push_str(&mut out, m.as_str());
                Err(CryptoError::Encrypt(string_of(&out)))
            },
            Ok(OpenResult::BadBase64(m)) => Err(CryptoError::Encoding(m)),
            Ok(OpenResult::TooShort) => Err(CryptoError::Format("密文格式错误".to_owned())),
            Ok(OpenResult::Rejected) => Err(CryptoError::Decrypt("解密失败: aead::Error".to_owned())),
            Ok(OpenResult::NotText(m)) => {
                let mut out: Vec<char> = Vec::new();
                push_str(&mut out, "解密后数据不是有效字符串: ");
                proof {
                    reveal_strlit("解密后数据不是有效字符串: ");
                }
                let ghost prefix = out@;
                push_str(&mut out, m.as_str());
                assert(out@.take(14) =~= prefix);
                Err(CryptoError::Format(string_of(&out)))
            },
            Ok(OpenResult::Text(s)) => Ok(s),
        }
    }

    /// The key bytes.
    pub fn to_bytes(&self) -> (r: [u8; 32])
        ensures
            r@ == self@,
    {
        self.key
    }

    /// The key with the given bytes.
    pub fn from_bytes(bytes: [u8; 32]) -> (r: UserKey)
        ensures
            r@ == bytes@,
    {
        UserKey { key: bytes }
    }
}

} // verus!
