//! Verified core of a game-library enrichment pipeline.
//!
//! The crate models the metadata cache, the per-source data adapters and the
//! orchestrator that merges their results into a unified record.  All network
//! and file I/O lives outside this library; the functions here take plain
//! values and are verified against their contracts.

pub mod achievements;
pub mod api_keys;
pub mod auth;
pub mod cache;
pub mod commands;
pub mod enricher;
pub mod howlongtobeat;
pub mod igdb;
pub mod models;
pub mod protondb;
pub mod status;
pub mod steamgriddb;
pub mod store;
pub mod sudoers;
pub mod system;
pub mod system_updates;
pub mod text;
pub mod time;
