//! Verified core of a bug-triage pipeline: building the two tracker queries,
//! turning fetched field bags into work items, classifying items by
//! description quality, grouping actionable items by topical keywords, and
//! assembling the report payload.

pub mod classify;
pub mod client;
pub mod config;
pub mod laws;
pub mod model;
pub mod report;
pub mod text;
