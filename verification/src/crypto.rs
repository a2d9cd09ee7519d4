//! Key handling: the user key that encrypts platform cookies, the system
//! key that signs sessions and encrypts API keys, and password hashing.
pub mod hash;
pub mod primitives;
pub mod sealed;
pub mod system_key;
pub mod user_key;
pub mod key_cache;
