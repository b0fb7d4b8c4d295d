//! The result values the two engines hand back to their callers.

use vstd::prelude::*;

verus! {

/// The outcome of one migration call: six per-category counters, the
/// errors and warnings gathered along the way, and the final decision.
#[derive(Debug, Clone)]
pub struct MigrationReport {
    pub success: bool,
    pub students_migrated: usize,
    pub counseling_sessions_migrated: usize,
    pub academic_records_migrated: usize,
    pub behavior_records_migrated: usize,
    pub documents_migrated: usize,
    pub settings_migrated: usize,
    pub errors: Vec<String>,
    pub warnings: Vec<String>,
}

/// The outcome of one import call: a message and four per-category counters.
#[derive(Debug, Clone)]
pub struct ImportResult {
    pub success: bool,
    pub message: String,
    pub students_imported: usize,
    pub users_imported: usize,
    pub sessions_imported: usize,
    pub records_imported: usize,
}

/// The views of a list of strings, for stating contracts over messages.
pub open spec fn string_views(v: Seq<String>) -> Seq<Seq<char>> {
    v.map_values(|s: String| s@)
}

} // verus!
