//! Verified core of a multi-platform content publishing service.
pub mod ai;
pub mod text;
pub mod types;
pub mod error;
pub mod publish;
pub mod hotspot;
pub mod task;
pub mod user;
pub mod crypto;
pub mod config;
pub mod draft;
pub mod json;
pub mod pattern;
pub mod records;
pub mod store;
pub mod web;
