use self_media::crypto::hash::{generate_salt, hash_password, verify_password};
use self_media::crypto::key_cache::{
    cached_or_stored_key, recover_stored_key, require_password, seal_user_key, UserKeyCache,
};
use self_media::crypto::system_key::{jwt_subject, SystemKey};
use self_media::crypto::user_key::UserKey;
use self_media::error::{AppError, CryptoError};
use self_media::store::{
    check_deleted, check_status_updated, check_username_free, open_api_key, open_minimax_key,
    reencrypt_all_cookies, reencrypt_cookies, seal_api_key,
};
use self_media::types::MiniMaxRegion;

fn user_key(b: u8) -> UserKey {
    UserKey::from_bytes([b; 32])
}

#[test]
fn user_key_decrypts_what_it_encrypted() {
    let k = user_key(7);
    let sealed = k.encrypt("cookie=abc; 中文").unwrap();
    assert_ne!(sealed, "cookie=abc; 中文");
    assert_eq!(k.decrypt(&sealed).unwrap(), "cookie=abc; 中文");
}

#[test]
fn encryption_uses_a_fresh_nonce_each_time() {
    let k = user_key(1);
    let a = k.encrypt("same").unwrap();
    let b = k.encrypt("same").unwrap();
    assert_ne!(a, b);
}

#[test]
fn another_key_cannot_open_a_sealed_text() {
    let sealed = user_key(1).encrypt("secret").unwrap();
    match user_key(2).decrypt(&sealed) {
        Err(CryptoError::Decrypt(m)) => assert_eq!(m, "解密失败: aead::Error"),
        other => panic!("unexpected: {:?}", other),
    }
}

#[test]
fn malformed_ciphertexts_are_refused() {
    let k = user_key(3);
    assert!(matches!(k.decrypt("***"), Err(CryptoError::Encoding(_))));
    match k.decrypt("AAAA") {
        Err(CryptoError::Format(m)) => assert_eq!(m, "密文格式错误"),
        other => panic!("unexpected: {:?}", other),
    }
}

#[test]
fn system_key_seals_secrets() {
    let sk = SystemKey::from_bytes(&[9u8; 32]);
    let c = sk.encrypt("api-key-123").unwrap();
    assert_eq!(sk.decrypt(&c).unwrap(), "api-key-123");
    let other = SystemKey::from_bytes(&[8u8; 32]);
    match other.decrypt(&c) {
        Err(CryptoError::Decrypt(m)) => assert_eq!(m, "解密失败"),
        other => panic!("unexpected: {:?}", other),
    }
}

#[test]
fn system_key_survives_save_and_load() {
    let sk = SystemKey::from_bytes(&[5u8; 32]);
    let machine = [1u8; 32];
    let saved = sk.save(&machine).unwrap();
    let loaded = SystemKey::load(&saved, &machine).unwrap();
    let c = sk.encrypt("x").unwrap();
    assert_eq!(loaded.decrypt(&c).unwrap(), "x");
    match SystemKey::load(&saved, &[2u8; 32]) {
        Err(CryptoError::Decrypt(m)) => assert_eq!(m, "系统密钥解密失败"),
        other => panic!("unexpected: {:?}", other.map(|_| ())),
    }
    match sk.save(&[1u8; 16]) {
        Err(CryptoError::Encrypt(m)) => assert_eq!(m, "机器密钥长度错误: Invalid Length"),
        other => panic!("unexpected: {:?}", other),
    }
}

#[test]
fn issued_tokens_verify_to_their_user() {
    let sk = SystemKey::from_bytes(&[4u8; 32]);
    let token = sk.generate_jwt(77).unwrap();
    assert_eq!(sk.verify_jwt(&token).unwrap(), 77);
    let other = SystemKey::from_bytes(&[3u8; 32]);
    assert!(matches!(other.verify_jwt(&token), Err(CryptoError::Jwt(_))));
    assert!(matches!(sk.verify_jwt("not.a.token"), Err(CryptoError::Jwt(_))));
}

#[test]
fn a_token_is_issued_for_any_representable_time() {
    let sk = SystemKey::from_bytes(&[4u8; 32]);
    let token = sk.generate_jwt_at(9, 1_700_000_000).unwrap();
    assert_eq!(token.split('.').count(), 3);
    assert!(sk.generate_jwt_at(9, 0).is_ok());
}

#[test]
fn token_subject_is_read_from_the_decoding() {
    assert_eq!(jwt_subject(Ok(Some(5))).unwrap(), 5);
    match jwt_subject(Ok(None)) {
        Err(CryptoError::Jwt(m)) => assert_eq!(m, "无效的 JWT: 缺少 sub 字段"),
        other => panic!("unexpected: {:?}", other),
    }
    match jwt_subject(Err("ExpiredSignature".to_string())) {
        Err(CryptoError::Jwt(m)) => assert_eq!(m, "ExpiredSignature"),
        other => panic!("unexpected: {:?}", other),
    }
}

#[test]
fn salts_are_sixteen_random_bytes() {
    let a = generate_salt();
    let b = generate_salt();
    assert_eq!(a.len(), 24);
    assert_ne!(a, b);
}

#[test]
fn short_or_broken_salts_are_refused() {
    assert!(matches!(hash_password("pw", "***"), Err(CryptoError::Encoding(_))));
    match UserKey::derive_from_password("pw", "AAAA") {
        Err(CryptoError::Format(m)) => assert_eq!(m, "盐值长度不足，至少需要8字节"),
        other => panic!("unexpected: {:?}", other.map(|_| ())),
    }
}

#[test]
fn key_cache_reads_back_inserted_keys() {
    let mut c = UserKeyCache::new(2);
    assert!(c.get(1).is_none());
    c.insert(1, &user_key(1));
    c.insert(2, &user_key(2));
    assert_eq!(c.get(1).map(|k| k.to_bytes()), Some([1u8; 32]));
    c.invalidate(1);
    assert!(c.get(1).is_none());
    assert_eq!(c.get(2).map(|k| k.to_bytes()), Some([2u8; 32]));
}

#[test]
fn key_cache_evicts_beyond_its_capacity() {
    let mut c = UserKeyCache::new(1);
    c.insert(1, &user_key(1));
    c.insert(2, &user_key(2));
    assert!(c.get(1).is_none());
    assert!(c.get(2).is_some());
}

#[test]
fn key_cache_evicts_the_least_recently_used_key() {
    let mut c = UserKeyCache::new(2);
    c.insert(1, &user_key(1));
    c.insert(2, &user_key(2));
    assert!(c.get(1).is_some());
    c.insert(3, &user_key(3));
    assert!(c.get(2).is_none());
    assert_eq!(c.get(1).map(|k| k.to_bytes()), Some([1u8; 32]));
    assert_eq!(c.get(3).map(|k| k.to_bytes()), Some([3u8; 32]));
    c.insert(1, &user_key(9));
    c.insert(4, &user_key(4));
    assert!(c.get(3).is_none());
    assert_eq!(c.get(1).map(|k| k.to_bytes()), Some([9u8; 32]));
}

#[test]
fn stored_user_keys_reopen_under_the_system_key() {
    let sk = SystemKey::from_bytes(&[6u8; 32]);
    let sealed = seal_user_key(&sk, &user_key(42)).unwrap();
    let back = recover_stored_key(&sk, Some(sealed.as_str())).unwrap().unwrap();
    assert_eq!(back.to_bytes(), [42u8; 32]);
    assert!(recover_stored_key(&sk, None).unwrap().is_none());
}

#[test]
fn a_cache_miss_restores_the_stored_key() {
    let sk = SystemKey::from_bytes(&[6u8; 32]);
    let sealed = seal_user_key(&sk, &user_key(42)).unwrap();
    let mut cache = UserKeyCache::new(4);
    cache.insert(7, &user_key(42));
    cache.invalidate(7);
    let k = cached_or_stored_key(&mut cache, &sk, 7, Some(sealed.as_str())).unwrap().unwrap();
    assert_eq!(k.to_bytes(), [42u8; 32]);
    assert_eq!(cache.get(7).map(|k| k.to_bytes()), Some([42u8; 32]));
    let hit = cached_or_stored_key(&mut cache, &sk, 7, None).unwrap().unwrap();
    assert_eq!(hit.to_bytes(), [42u8; 32]);
    assert!(cached_or_stored_key(&mut cache, &sk, 8, None).unwrap().is_none());
    assert!(cached_or_stored_key(&mut cache, &sk, 8, Some("")).unwrap().is_none());
    let other = SystemKey::from_bytes(&[1u8; 32]);
    assert!(matches!(cached_or_stored_key(&mut cache, &other, 9, Some(sealed.as_str())), Err(AppError::Crypto { .. })));
}

#[test]
fn deriving_a_key_needs_the_password() {
    assert_eq!(require_password(Some("pw")).unwrap(), "pw");
    assert!(require_password(None).is_err());
}

#[test]
fn cookies_are_resealed_under_the_new_key() {
    let old = user_key(1);
    let new = user_key(2);
    let sealed = old.encrypt("SESSDATA=1").unwrap();
    let resealed = reencrypt_cookies(&old, &new, &sealed).unwrap();
    assert_eq!(new.decrypt(&resealed).unwrap(), "SESSDATA=1");
    assert!(matches!(reencrypt_cookies(&new, &old, &sealed), Err(AppError::Crypto { .. })));
}

#[test]
fn every_cookie_is_resealed_in_order_until_one_fails() {
    let old = user_key(1);
    let new = user_key(2);
    let a = old.encrypt("a=1").unwrap();
    let b = old.encrypt("b=2").unwrap();
    let (out, err) = reencrypt_all_cookies(&old, &new, &vec![a.clone(), b.clone()]);
    assert!(err.is_none());
    assert_eq!(out.len(), 2);
    assert_eq!(new.decrypt(&out[0]).unwrap(), "a=1");
    assert_eq!(new.decrypt(&out[1]).unwrap(), "b=2");
    let foreign = new.encrypt("c=3").unwrap();
    let (out, err) = reencrypt_all_cookies(&old, &new, &vec![a, foreign, b]);
    assert_eq!(out.len(), 1);
    assert!(matches!(err, Some(AppError::Crypto { .. })));
    let (out, err) = reencrypt_all_cookies(&old, &new, &vec![]);
    assert!(out.is_empty() && err.is_none());
}

#[test]
fn api_keys_are_sealed_and_opened() {
    let sk = SystemKey::from_bytes(&[2u8; 32]);
    match seal_api_key(&sk, "   ") {
        Err(AppError::Validation { code, message }) => {
            assert_eq!(code, "INPUT_001");
            assert_eq!(message, "API Key 不能为空");
        },
        other => panic!("unexpected: {:?}", other),
    }
    let sealed = seal_api_key(&sk, "sk-1").unwrap();
    let (key, region) = open_api_key(&sk, Some(sealed.as_str())).unwrap();
    assert_eq!(key, "sk-1");
    assert_eq!(region, MiniMaxRegion::CN);
    assert_eq!(open_minimax_key(&sk, Some(sealed.as_str())).unwrap(), "sk-1");
    match open_api_key(&sk, None) {
        Err(AppError::Config { code, message }) => {
            assert_eq!(code, "CONFIG_001");
            assert_eq!(message, "未配置 MiniMax API Key");
        },
        other => panic!("unexpected: {:?}", other),
    }
    match open_minimax_key(&sk, None) {
        Err(AppError::Config { message, .. }) => assert_eq!(message, "用户不存在或API Key未设置"),
        other => panic!("unexpected: {:?}", other),
    }
}

#[test]
fn store_row_checks() {
    match check_username_free(1) {
        Err(AppError::Auth { code, message }) => {
            assert_eq!(code, "AUTH_001");
            assert_eq!(message, "用户名已存在");
        },
        other => panic!("unexpected: {:?}", other),
    }
    assert!(check_username_free(0).is_ok());
    assert!(check_status_updated(1).is_ok());
    match check_status_updated(0) {
        Err(AppError::Config { code, .. }) => assert_eq!(code, "DRAFT_002"),
        other => panic!("unexpected: {:?}", other),
    }
    match check_deleted(0) {
        Err(AppError::Config { code, message }) => {
            assert_eq!(code, "DRAFT_003");
            assert_eq!(message, "草稿不存在或无权删除");
        },
        other => panic!("unexpected: {:?}", other),
    }
}

#[test]
fn hashing_with_a_good_salt_succeeds() {
    let salt = generate_salt();
    let h = hash_password("password1", &salt).unwrap();
    assert_eq!(h.len(), 44);
}

#[test]
fn a_wrong_password_does_not_match_the_hash() {
    let salt = "c2FsdHNhbHRzYWx0c2FsdA==";
    let h = hash_password("password1", salt).unwrap();
    assert_eq!(verify_password("password2", &h, salt).unwrap(), false);
    assert!(matches!(verify_password("password1", "***", salt), Err(CryptoError::Encoding(_))));
}

#[test]
fn tokens_without_three_parts_are_invalid() {
    let sk = SystemKey::from_bytes(&[4u8; 32]);
    for t in ["", "abc", "only.one"] {
        match sk.verify_jwt(t) {
            Err(CryptoError::Jwt(m)) => assert_eq!(m, "InvalidToken"),
            other => panic!("unexpected: {:?}", other),
        }
    }
}
