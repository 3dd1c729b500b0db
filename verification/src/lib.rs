//! A local-workflow agent: provider registry, streaming-event translation,
//! the agent turn state machines, goal bookkeeping, settings and upload
//! helpers, each with a verified contract.

pub mod agent;
pub mod api;
pub mod config;
pub mod goal;
pub mod json;
pub mod sqlite_storage;
pub mod types;
pub mod text;
pub mod ui;
