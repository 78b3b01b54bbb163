//! Data-plane gateway library: an encrypted credential vault, a bearer-token
//! authentication gate, provider-adapter logic for an OpenAI-compatible
//! upstream, and usage accounting, with contracts checked by Verus.
//!
//! Network I/O, the HTTP framework and the database driver live outside this
//! crate; everything here works on plain values handed in by the caller.

pub mod auth;
pub mod chat;
pub mod config;
pub mod crypto;
pub mod entities;
pub mod errors;
pub mod health;
pub mod openai;
pub mod pricing;
pub mod provider_keys;
pub mod sys;
pub mod text;
pub mod transcribe;
pub mod usage;
pub mod vault;

pub use errors::AppError;
