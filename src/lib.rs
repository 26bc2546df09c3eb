//! Content crawler: keyword filtering, configuration validation, and the
//! per-provider paging and retry decisions of the source adapters.

pub mod config;
pub mod document;
pub mod error;
pub mod filter;
pub mod orchestrator;
pub mod source;
pub mod text;
