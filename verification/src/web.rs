//! The HTTP layer's decisions: the status of each error, who a request is
//! from, the CSRF check, which events reach whom, the request and reply
//! bodies, and the handling of stored files.
pub mod errors;
pub mod session;
pub mod csrf;
pub mod events;
pub mod bodies;
pub mod storage;
