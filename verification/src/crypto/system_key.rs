//! The system key: signs session tokens and encrypts stored API keys. It is
//! persisted sealed under a machine key.
use crate::crypto::primitives::{
    fill_random, has_two_dots, hs256_decode_subject, hs256_encode, hs256_token, hs256_token_subject,
    unix_now, AES_GCM_P_MAX,
};
use crate::crypto::sealed::{
    open_sealed, open_text, seal_bytes, seal_text, sealed_with_some_nonce, unseal, unseal_text,
    OpenResult, Opened, UnsealResult, Unsealed,
};
use crate::error::CryptoError;
use vstd::prelude::*;

verus! {

broadcast use vstd::string::group_string_axioms;

/// Lifetime of a session token: seven days, in seconds.
pub const TOKEN_LIFETIME_SECS: i64 = 604800;

/// A 32-byte system key.
#[derive(Clone)]
pub struct SystemKey {
    key_bytes: [u8; 32],
}

impl View for SystemKey {
    type V = Seq<u8>;

    closed spec fn view(&self) -> Seq<u8> {
        self.key_bytes@
    }
}

/// Why loading a persisted system key fails.
pub enum LoadRefusal {
    /// The text is not Base64.
    BadBase64,
    /// A format error with this message.
    Format(Seq<char>),
    /// A decryption error with this message.
    Decrypt(Seq<char>),
}

/// What loading a persisted system key gives: the key bytes, or why not.
pub open spec fn loaded_key(encrypted: Seq<char>, machine_key: Seq<u8>) -> Result<Seq<u8>, LoadRefusal> {
    match unseal(machine_key, encrypted) {
        Unsealed::BadBase64 => Err(LoadRefusal::BadBase64),
        Unsealed::TooShort => Err(LoadRefusal::Format("系统密钥密文格式错误"@)),
        Unsealed::Rejected => if machine_key.len() != 32 {
            Err(LoadRefusal::Decrypt("机器密钥长度错误: Invalid Length"@))
        } else {
            Err(LoadRefusal::Decrypt("系统密钥解密失败"@))
        },
        Unsealed::Payload(p) => if machine_key.len() != 32 {
            Err(LoadRefusal::Decrypt("机器密钥长度错误: Invalid Length"@))
        } else if p.len() != 32 {
            Err(LoadRefusal::Format("系统密钥长度错误"@))
        } else {
            Ok(p)
        },
    }
}

/// The subject a token decoding gives, from the decoder's outcome: its
/// `sub` claim when present, else a JWT error.
pub fn jwt_subject(decoded: Result<Option<i64>, String>) -> (r: Result<i64, CryptoError>)
    ensures
        match decoded {
            Ok(Some(id)) => r == Ok::<i64, CryptoError>(id),
            Ok(None) => r matches Err(CryptoError::Jwt(m)) && m@ == "无效的 JWT: 缺少 sub 字段"@,
            Err(e) => r matches Err(CryptoError::Jwt(m)) && m@ == e@,
        },
{
    match decoded {
        Ok(Some(id)) => Ok(id),
        Ok(None) => Err(CryptoError::Jwt("无效的 JWT: 缺少 sub 字段".to_owned())),
        Err(e) => Err(CryptoError::Jwt(e)),
    }
}

impl SystemKey {
    /// A new random system key.
    pub fn generate() -> (r: SystemKey)
    {
        let mut key_bytes = [0u8; 32];
        fill_random(&mut key_bytes);
        SystemKey::from_bytes(&key_bytes)
    }

    /// The system key with the given bytes.
    pub fn from_bytes(key_bytes: &[u8; 32]) -> (r: SystemKey)
        ensures
            r@ == key_bytes@,
    {
        SystemKey { key_bytes: *key_bytes }
    }

    /// Loads a system key persisted by `save` under `machine_key`.
    pub fn load(encrypted: &str, machine_key: &[u8]) -> (r: Result<SystemKey, CryptoError>)
        ensures
            match loaded_key(encrypted@, machine_key@) {
                Ok(k) => r matches Ok(key) && key@ == k,
                Err(LoadRefusal::BadBase64) => r matches Err(CryptoError::Encoding(_)),
                Err(LoadRefusal::Format(m)) => r matches Err(CryptoError::Format(x)) && x@ == m,
                Err(LoadRefusal::Decrypt(m)) => r matches Err(CryptoError::Decrypt(x)) && x@ == m,
            },
    {
        match unseal_text(machine_key, encrypted) {
            Ok(UnsealResult::BadBase64(m)) => Err(CryptoError::Encoding(m)),
            Ok(UnsealResult::TooShort) => Err(CryptoError::Format("系统密钥密文格式错误".to_owned())),
            Err(_) => Err(CryptoError::Decrypt("机器密钥长度错误: Invalid Length".to_owned())),
            Ok(UnsealResult::Rejected) => Err(CryptoError::Decrypt("系统密钥解密失败".to_owned())),
            Ok(UnsealResult::Payload(p)) => {
                if p.len() != 32 {
                    return Err(CryptoError::Format("系统密钥长度错误".to_owned()));
                }
                let mut key_bytes = [0u8; 32];
                let mut i: usize = 0;
                while i < 32
                    invariant
                        p.len() == 32,
                        i <= 32,
                        forall|k: int| 0 <= k < i ==> key_bytes@[k] == p@[k],
                    decreases 32 - i,
                {
                    key_bytes[i] = p[i];
                    i = i + 1;
                }
                assert(key_bytes@ =~= p@);
                Ok(SystemKey::from_bytes(&key_bytes))
            },
        }
    }

    /// Persists the key sealed under `machine_key` with a fresh nonce;
    /// loading the result with the same machine key gives this key back.
    pub fn save(&self, machine_key: &[u8]) -> (r: Result<String, CryptoError>)
        ensures
            machine_key.len() != 32 <==> r is Err,
            r matches Err(e) ==> (e matches CryptoError::Encrypt(m) && m@ == "机器密钥长度错误: Invalid Length"@),
            r matches Ok(c) ==> loaded_key(c@, machine_key@) == Ok::<Seq<u8>, LoadRefusal>(self@),
            r matches Ok(c) ==> sealed_with_some_nonce(machine_key@, self@, c@),
    {
        match seal_bytes(machine_key, &self.key_bytes) {
            Ok(c) => Ok(c),
            Err(Some(_)) => Err(CryptoError::Encrypt("机器密钥长度错误: Invalid Length".to_owned())),
            Err(None) => {
                assert(false);
                Err(CryptoError::Encrypt("aead::Error".to_owned()))
            },
        }
    }

    /// Signs a session token for `user_id` issued at `now` (Unix seconds),
    /// valid for seven days; signing always succeeds.
    pub fn generate_jwt_at(&self, user_id: i64, now: i64) -> (r: Result<String, CryptoError>)
        requires
            now <= i64::MAX - TOKEN_LIFETIME_SECS,
        ensures
            r matches Ok(t) ==> t@ == hs256_token(
                user_id as int,
                now as int,
                now + TOKEN_LIFETIME_SECS,
                self@,
            ),
            r matches Ok(t) ==> hs256_token_subject(t@, self@) == Some(user_id),
            r is Ok,
    {
        match hs256_encode(user_id, now, now + TOKEN_LIFETIME_SECS, &self.key_bytes) {
            Ok(t) => Ok(t),
            Err(m) => {
                assert(false);
                Err(CryptoError::Jwt(m))
            },
        }
    }

    /// Signs a session token for `user_id` issued now, valid for seven
    /// days; a clock reading too late to add seven days to is refused.
    pub fn generate_jwt(&self, user_id: i64) -> (r: Result<String, CryptoError>)
        ensures
            r matches Ok(t) ==> exists|now: i64|
                now <= i64::MAX - TOKEN_LIFETIME_SECS && t@ == #[trigger] hs256_token(
                    user_id as int,
                    now as int,
                    now + TOKEN_LIFETIME_SECS,
                    self@,
                ),
            r matches Ok(t) ==> hs256_token_subject(t@, self@) == Some(user_id),
            r matches Err(e) ==> (e matches CryptoError::Jwt(m) && m@ == "时间超出范围"@),
    {
        let now = unix_now();
        if now > i64::MAX - TOKEN_LIFETIME_SECS {
            return Err(CryptoError::Jwt("时间超出范围".to_owned()));
        }
        self.generate_jwt_at(user_id, now)
    }

    /// Checks a session token and gives its user id: the `sub` claim of a
    /// token that decodes under this key; a token without two dots is
    /// refused as `InvalidToken`, one without an integer `sub` as missing
    /// it. Whether a well-formed token is accepted (signature, expiry
    /// against the clock) is the decoder's.
    pub fn verify_jwt(&self, token: &str) -> (r: Result<i64, CryptoError>)
        ensures
            r matches Ok(id) ==> hs256_token_subject(token@, self@) == Some(id),
            r matches Err(e) ==> e is Jwt,
            !has_two_dots(token@) ==> (r matches Err(CryptoError::Jwt(m)) && m@ == "InvalidToken"@),
    {
        let decoded = hs256_decode_subject(token, &self.key_bytes);
        jwt_subject(decoded)
    }

    /// Seals a secret (such as an API key) under this key; it opens with
    /// this key to the secret.
    pub fn encrypt(&self, plaintext: &str) -> (r: Result<String, CryptoError>)
        ensures
            vstd::utf8::encode_utf8(plaintext@).len() <= AES_GCM_P_MAX ==> r is Ok,
            r matches Ok(c) ==> c@.len() > 0,
            r matches Ok(c) ==> open_sealed(self@, c@) == Opened::Text(plaintext@),
            r matches Err(e) ==> (e matches CryptoError::Encrypt(m) && m@ == "aead::Error"@),
    {
        match seal_text(&self.key_bytes, plaintext) {
            Ok(c) => Ok(c),
            Err(Some(_)) => Err(CryptoError::Encrypt("加密失败: Invalid Length".to_owned())),
            Err(None) => Err(CryptoError::Encrypt("aead::Error".to_owned())),
        }
    }

    /// Opens a secret sealed under this key.
    pub fn decrypt(&self, encrypted: &str) -> (r: Result<String, CryptoError>)
        ensures
            match open_sealed(self@, encrypted@) {
                Opened::BadBase64 => r matches Err(CryptoError::Encoding(_)),
                Opened::TooShort => r matches Err(CryptoError::Format(m)) && m@ == "密文格式错误"@,
                Opened::Rejected => r matches Err(CryptoError::Decrypt(m)) && m@ == "解密失败"@,
                Opened::NotText => r matches Err(CryptoError::Format(m)) && m@ == "解密结果不是有效UTF8"@,
                Opened::Text(p) => r matches Ok(s) && s@ == p,
            },
    {
        match open_text(&self.key_bytes, encrypted) {
            Err(_) => Err(CryptoError::Decrypt("解密失败: Invalid Length".to_owned())),
            Ok(OpenResult::BadBase64(m)) => Err(CryptoError::Encoding(m)),
            Ok(OpenResult::TooShort) => Err(CryptoError::Format("密文格式错误".to_owned())),
            Ok(OpenResult::Rejected) => Err(CryptoError::Decrypt("解密失败".to_owned())),
            Ok(OpenResult::NotText(_)) => Err(CryptoError::Format("解密结果不是有效UTF8".to_owned())),
            Ok(OpenResult::Text(s)) => Ok(s),
        }
    }
}


/// A token issued for a user verifies, if it is accepted at all, to that
/// user: the subject the verification gives is the one the token was
/// issued for.
pub proof fn lemma_issued_token_names_its_user(key: SystemKey, token: Seq<char>, user_id: i64, verified: i64)
    requires
        hs256_token_subject(token, key@) == Some(user_id),
        hs256_token_subject(token, key@) == Some(verified),
    ensures
        verified == user_id,
{
}

} // verus!
