//! Turns unstructured free-text notes into structured journal entries
//! (title, cleaned body, tags) through a pluggable LLM backend.
//!
//! The crate holds the verified core: configuration resolution, the two
//! backend drivers' request construction and response validation, the
//! title sanitizer, and the orchestration decisions. Network transport,
//! the config file on disk and the external journaling tool live outside
//! this crate and exchange plain values with it.

pub mod config;
pub mod journal;
pub mod orchestrator;
pub mod providers;
pub mod text;
