//! Record-keeping engine for a school-counseling application.
//!
//! The heart of the crate is the legacy-to-current data migration engine
//! and its sibling, the whole-database export/import engine: both move
//! loosely-schematized record collections between two independently
//! versioned stores with all-or-nothing or best-effort guarantees, as each
//! case demands. Around them stand the field-coercion layer for untyped
//! legacy rows, the portable document model, input-validation utilities,
//! and the entity record types of the wider application.

pub mod discover;
pub mod document;
pub mod export;
pub mod ids;
pub mod import;
pub mod legacy;
pub mod migrate;
pub mod models;
pub mod report;
pub mod security;
pub mod store;
pub mod text;
