//! Metadata for uploaded files.

use vstd::prelude::*;

verus! {

/// What a caller tells us about a file being uploaded.
#[derive(Debug, Clone)]
pub struct FileMetadata {
    pub id: String,
    pub name: String,
    pub file_type: String,
    pub size: u64,
    pub student_id: Option<String>,
}

/// What we tell a caller about a stored file.
#[derive(Debug, Clone)]
pub struct FileInfo {
    pub id: String,
    pub name: String,
    pub path: String,
    pub size: u64,
    pub created_at: String,
}

} // verus!
