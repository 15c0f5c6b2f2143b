//! Ephemeral file sharing: signed capability URLs, an in-memory object
//! registry, bounded upload ingestion and expiry sweeping.

mod text;
pub mod sanitize;
pub mod decimal;
pub mod config;
pub mod urlenc;
pub mod capability;
pub mod registry;
pub mod access;
pub mod ingest;
