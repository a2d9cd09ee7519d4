//! The cache of user keys: the keys of recently active users, in an LRU
//! cache of bounded size; and the recovery of a user's key from its copy
//! stored under the system key.
use crate::crypto::primitives::{base64_decode, base64_encode, base64_standard_bytes, base64_standard_text};
use crate::crypto::sealed::{open_sealed, Opened};
use crate::crypto::system_key::SystemKey;
use crate::crypto::user_key::UserKey;
use crate::error::{AppError, CRYPTO_001};
use crate::text::{push_str, string_of};
use lru::LruCache;
use vstd::prelude::*;
use vstd::string::StringSliceAdditionalSpecFns;

verus! {

broadcast use vstd::string::group_string_axioms;

/// `lru::LruCache`, carried through opaque.
#[verifier::external_type_specification]
#[verifier::external_body]
#[verifier::reject_recursive_types(K)]
#[verifier::reject_recursive_types(V)]
#[verifier::reject_recursive_types(S)]
pub struct ExLruCache<K, V, S>(LruCache<K, V, S>);

/// The hasher an `lru::LruCache` uses by default, carried through opaque.
#[verifier::external_type_specification]
#[verifier::external_body]
pub struct ExLruHasher(lru::DefaultHasher);

/// The entries of a cache of key bytes by user id.
pub uninterp spec fn lru_contents(c: LruCache<i64, [u8; 32]>) -> Map<i64, Seq<u8>>;

/// The keys of a cache in the order of their use, from the least to the
/// most recently used (the cache's list, read from its tail to its head).
pub uninterp spec fn lru_order(c: LruCache<i64, [u8; 32]>) -> Seq<i64>;

/// The number of entries a cache was made to hold at most.
pub uninterp spec fn lru_capacity(c: LruCache<i64, [u8; 32]>) -> nat;

/// The cache is within its bounds: finitely many entries, at most its
/// capacity, each key once in the order of use.
pub open spec fn lru_bounded(c: LruCache<i64, [u8; 32]>) -> bool {
    &&& lru_contents(c).dom().finite()
    &&& lru_contents(c).len() <= lru_capacity(c)
    &&& lru_capacity(c) > 0
    &&& lru_order(c).no_duplicates()
    &&& lru_order(c).len() == lru_contents(c).len()
    &&& forall|k: i64| #[trigger] lru_order(c).contains(k) <==> lru_contents(c).contains_key(k)
}

/// No key at all.
pub open spec fn no_keys() -> Map<i64, Seq<u8>> {
    Map::empty()
}

/// `order` without `k`.
pub open spec fn without_key(order: Seq<i64>, k: i64) -> Seq<i64> {
    order.filter(|x: i64| x != k)
}

/// `order` with `k` moved to the most recently used end.
pub open spec fn touched(order: Seq<i64>, k: i64) -> Seq<i64> {
    without_key(order, k).push(k)
}

/// `LruCache::new`: an empty cache holding at most `cap` entries.
#[verifier::external_body]
fn lru_new(cap: usize) -> (r: LruCache<i64, [u8; 32]>)
    requires
        cap > 0,
    ensures
        lru_contents(r) == no_keys(),
        lru_order(r) == Seq::<i64>::empty(),
        lru_capacity(r) == cap,
        lru_bounded(r),
{
    LruCache::new(std::num::NonZeroUsize::new(cap).unwrap())
}

/// `LruCache::get`: the entry of `k`, if any; it becomes the most recently
/// used, and the entries stay as they are.
#[verifier::external_body]
fn lru_get(c: &mut LruCache<i64, [u8; 32]>, k: i64) -> (r: Option<[u8; 32]>)
    ensures
        lru_contents(*final(c)) == lru_contents(*old(c)),
        lru_capacity(*final(c)) == lru_capacity(*old(c)),
        lru_bounded(*old(c)) ==> lru_bounded(*final(c)),
        lru_order(*final(c)) == if lru_contents(*old(c)).contains_key(k) {
            touched(lru_order(*old(c)), k)
        } else {
            lru_order(*old(c))
        },
        match r {
            Some(v) => lru_contents(*old(c)).contains_key(k) && lru_contents(*old(c))[k] == v@,
            None => !lru_contents(*old(c)).contains_key(k),
        },
{
    c.get(&k).copied()
}

/// `LruCache::put`: sets the entry of `k`, which becomes the most recently
/// used. Where `k` is new and the cache is full, the least recently used
/// entry leaves.
#[verifier::external_body]
fn lru_put(c: &mut LruCache<i64, [u8; 32]>, k: i64, v: [u8; 32])
    requires
        lru_bounded(*old(c)),
    ensures
        lru_capacity(*final(c)) == lru_capacity(*old(c)),
        lru_bounded(*final(c)),
        lru_contents(*old(c)).contains_key(k) ==> lru_contents(*final(c)) == lru_contents(
            *old(c),
        ).insert(k, v@) && lru_order(*final(c)) == touched(lru_order(*old(c)), k),
        !lru_contents(*old(c)).contains_key(k) && lru_contents(*old(c)).len() < lru_capacity(*old(c))
            ==> lru_contents(*final(c)) == lru_contents(*old(c)).insert(k, v@) && lru_order(*final(c))
            == lru_order(*old(c)).push(k),
        !lru_contents(*old(c)).contains_key(k) && lru_contents(*old(c)).len() >= lru_capacity(*old(c))
            ==> lru_contents(*final(c)) == lru_contents(*old(c)).remove(lru_order(*old(c))[0]).insert(
            k,
            v@,
        ) && lru_order(*final(c)) == lru_order(*old(c)).drop_first().push(k),
{
    c.put(k, v);
}

/// `LruCache::pop`: removes the entry of `k`.
#[verifier::external_body]
fn lru_pop(c: &mut LruCache<i64, [u8; 32]>, k: i64)
    ensures
        lru_contents(*final(c)) == lru_contents(*old(c)).remove(k),
        lru_order(*final(c)) == without_key(lru_order(*old(c)), k),
        lru_capacity(*final(c)) == lru_capacity(*old(c)),
        lru_bounded(*old(c)) ==> lru_bounded(*final(c)),
{
    c.pop(&k);
}

/// The capacity used when none is given.
pub const DEFAULT_KEY_CACHE_CAPACITY: usize = 100;

/// The user keys of recently active users, by user id.
pub struct UserKeyCache {
    cache: LruCache<i64, [u8; 32]>,
}

impl View for UserKeyCache {
    type V = Map<i64, Seq<u8>>;

    closed spec fn view(&self) -> Map<i64, Seq<u8>> {
        lru_contents(self.cache)
    }
}

impl UserKeyCache {
    /// The cached users from the least to the most recently used.
    pub closed spec fn recency(self) -> Seq<i64> {
        lru_order(self.cache)
    }

    /// How many keys the cache holds at most.
    pub closed spec fn capacity(self) -> nat {
        lru_capacity(self.cache)
    }

    /// The cache is within its bounds.
    pub closed spec fn wf(self) -> bool {
        lru_bounded(self.cache)
    }

    /// An empty cache of `max_capacity` keys (100 where it is 0).
    pub fn new(max_capacity: usize) -> (r: UserKeyCache)
        ensures
            r.wf(),
            r@ == no_keys(),
            r.recency() == Seq::<i64>::empty(),
            r.capacity() == (if max_capacity == 0 {
                DEFAULT_KEY_CACHE_CAPACITY
            } else {
                max_capacity
            }),
    {
        let cap = if max_capacity == 0 {
            DEFAULT_KEY_CACHE_CAPACITY
        } else {
            max_capacity
        };
        UserKeyCache { cache: lru_new(cap) }
    }

    /// The cached key of `user_id`, if any; a cached user becomes the most
    /// recently used.
    pub fn get(&mut self, user_id: i64) -> (r: Option<UserKey>)
        ensures
            final(self)@ == old(self)@,
            final(self).recency() == if old(self)@.contains_key(user_id) {
                touched(old(self).recency(), user_id)
            } else {
                old(self).recency()
            },
            final(self).capacity() == old(self).capacity(),
            old(self).wf() ==> final(self).wf(),
            match r {
                Some(k) => old(self)@.contains_key(user_id) && old(self)@[user_id] == k@,
                None => !old(self)@.contains_key(user_id),
            },
    {
        match lru_get(&mut self.cache, user_id) {
            Some(bytes) => Some(UserKey::from_bytes(bytes)),
            None => None,
        }
    }

    /// Caches the key of `user_id`; where the cache is full and the user is
    /// new, the least recently used key leaves.
    pub fn insert(&mut self, user_id: i64, key: &UserKey)
        requires
            old(self).wf(),
        ensures
            final(self).wf(),
            final(self).capacity() == old(self).capacity(),
            final(self)@.contains_key(user_id) && final(self)@[user_id] == key@,
            forall|u: i64| u != user_id && #[trigger] final(self)@.contains_key(u) ==> old(self)@.contains_key(u)
                && final(self)@[u] == old(self)@[u],
            (old(self)@.contains_key(user_id) || old(self)@.len() < old(self).capacity()) ==> final(self)@ == old(self)@.insert(user_id, key@),
            !old(self)@.contains_key(user_id) && old(self)@.len() >= old(self).capacity() ==> final(self)@
                == old(self)@.remove(old(self).recency()[0]).insert(user_id, key@),
            old(self)@.contains_key(user_id) ==> final(self).recency() == touched(old(self).recency(), user_id),
            !old(self)@.contains_key(user_id) && old(self)@.len() < old(self).capacity() ==> final(self).recency()
                == old(self).recency().push(user_id),
            !old(self)@.contains_key(user_id) && old(self)@.len() >= old(self).capacity() ==> final(self).recency()
                == old(self).recency().drop_first().push(user_id),
    {
        lru_put(&mut self.cache, user_id, key.to_bytes());
    }

    /// Forgets the key of `user_id` (on logout or a password change).
    pub fn invalidate(&mut self, user_id: i64)
        ensures
            final(self)@ == old(self)@.remove(user_id),
            final(self).recency() == without_key(old(self).recency(), user_id),
            final(self).capacity() == old(self).capacity(),
            old(self).wf() ==> final(self).wf(),
    {
        lru_pop(&mut self.cache, user_id);
    }
}

/// A key stored under the system key, as the cache recovers it: nothing
/// where none is stored (or it is empty) or it is not 32 bytes of Base64;
/// an error where it does not decrypt or is not Base64.
pub open spec fn stored_key_outcome(system: Seq<u8>, encrypted: Option<Seq<char>>) -> Option<Result<Option<Seq<u8>>, ()>> {
    match encrypted {
        None => Some(Ok(None)),
        Some(e) => if e.len() == 0 {
            Some(Ok(None))
        } else {
            match open_sealed(system, e) {
                Opened::Text(b64) => match base64_standard_bytes(vstd::utf8::encode_utf8(b64)) {
                    Some(bytes) => if bytes.len() == 32 {
                        Some(Ok(Some(bytes)))
                    } else {
                        Some(Ok(None))
                    },
                    None => Some(Err(())),
                },
                _ => Some(Err(())),
            }
        },
    }
}

/// Recovers a user's key from its copy sealed under the system key:
/// `None` where no usable copy is stored; an error where the copy does not
/// open or is not Base64.
pub fn recover_stored_key(system_key: &SystemKey, encrypted: Option<&str>) -> (r: Result<Option<UserKey>, AppError>)
    ensures
        match stored_key_outcome(system_key@, match encrypted {
            Some(e) => Some(e@),
            None => None,
        }) {
            Some(Ok(None)) => r matches Ok(None),
            Some(Ok(Some(bytes))) => r matches Ok(Some(k)) && k@ == bytes,
            _ => r matches Err(AppError::Crypto { code, .. }) && code@ == CRYPTO_001@,
        },
{
    let e = match encrypted {
        Some(e) => e,
        None => {
            return Ok(None);
        },
    };
    if e.is_empty() {
        return Ok(None);
    }
    let b64 = match system_key.decrypt(e) {
        Ok(t) => t,
        Err(err) => {
            return Err(AppError::from_crypto(err));
        },
    };
    let bytes = match base64_decode(b64.as_str()) {
        Ok(b) => b,
        Err(m) => {
            let mut out: Vec<char> = Vec::new();
            push_str(&mut out, "用户密钥解码失败: ");
            push_str(&mut out, m.as_str());
            return Err(AppError::crypto(CRYPTO_001, string_of(&out).as_str()));
        },
    };
    if bytes.len() == 32 {
        let mut key = [0u8; 32];
        let mut i: usize = 0;
        while i < 32
            invariant
                i <= 32,
                bytes@.len() == 32,
                forall|j: int| 0 <= j < i ==> key@[j] == bytes@[j],
            decreases 32 - i,
        {
            key.set(i, bytes[i]);
            i = i + 1;
        }
        assert(key@ =~= bytes@);
        Ok(Some(UserKey::from_bytes(key)))
    } else {
        Ok(None)
    }
}

/// The key of `user_id` from the cache, or else from its copy `stored`
/// sealed under the system key, which is then cached; `None` where neither
/// has it (the key must then be derived again from the password), and an
/// error where the stored copy does not open or is not Base64.
pub fn cached_or_stored_key(
    cache: &mut UserKeyCache,
    system_key: &SystemKey,
    user_id: i64,
    stored: Option<&str>,
) -> (r: Result<Option<UserKey>, AppError>)
    requires
        old(cache).wf(),
    ensures
        final(cache).wf(),
        old(cache)@.contains_key(user_id) ==> (r matches Ok(Some(k)) && k@ == old(cache)@[user_id]
            && final(cache)@ == old(cache)@),
        !old(cache)@.contains_key(user_id) ==> match stored_key_outcome(system_key@, match stored {
            Some(e) => Some(e@),
            None => None,
        }) {
            Some(Ok(None)) => r matches Ok(None) && final(cache)@ == old(cache)@,
            Some(Ok(Some(bytes))) => r matches Ok(Some(k)) && k@ == bytes && final(cache)@.contains_key(
                user_id,
            ) && final(cache)@[user_id] == bytes,
            _ => r matches Err(AppError::Crypto { code, .. }) && code@ == CRYPTO_001@ && final(cache)@
                == old(cache)@,
        },
{
    match cache.get(user_id) {
        Some(k) => {
            return Ok(Some(k));
        },
        None => {},
    }
    match recover_stored_key(system_key, stored) {
        Ok(Some(k)) => {
            cache.insert(user_id, &k);
            Ok(Some(k))
        },
        Ok(None) => Ok(None),
        Err(e) => Err(e),
    }
}

/// Without a usable stored copy, the key can only be derived again from
/// the password; without one the user must log in again.
pub fn require_password(password: Option<&str>) -> (r: Result<&str, AppError>)
    ensures
        match password {
            Some(p) => r == Ok::<&str, AppError>(p),
            None => r matches Err(AppError::Crypto { code, message }) && code@ == CRYPTO_001@
                && message@ == "用户密钥未缓存，需重新登录"@,
        },
{
    match password {
        Some(p) => Ok(p),
        None => Err(AppError::crypto(CRYPTO_001, "用户密钥未缓存，需重新登录")),
    }
}

/// A user's key sealed under the system key for storage: its Base64 text,
/// encrypted; it opens to that text, and recovering the stored copy gives
/// the key back.
pub fn seal_user_key(system_key: &SystemKey, key: &UserKey) -> (r: Result<String, AppError>)
    ensures
        r is Ok,
        r matches Ok(c) ==> open_sealed(system_key@, c@) == Opened::Text(base64_standard_text(key@)),
        r matches Ok(c) ==> stored_key_outcome(system_key@, Some(c@)) == Some(
            Ok::<Option<Seq<u8>>, ()>(Some(key@)),
        ),
{
    let bytes = key.to_bytes();
    let b64 = base64_encode(&bytes);
    proof {
        vstd::utf8::is_ascii_chars_encode_utf8(b64@);
        assert(b64@.len() == 44);
    }
    match system_key.encrypt(b64.as_str()) {
        Ok(c) => Ok(c),
        Err(e) => {
            assert(false);
            Err(AppError::from_crypto(e))
        },
    }
}

} // verus!
