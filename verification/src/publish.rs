//! Publishing: rate limiting, QR-code login and the helpers of the
//! platform adapters.
pub mod error;
pub mod encoding;
pub mod rate_limiter;
pub mod qr_login;
pub mod qr_platforms;
pub mod run;
pub mod platforms;
pub mod video_runs;
pub mod health;
