//! Requests around reviewing advisory suggestions.

use vstd::prelude::*;

verus! {

/// One verdict on one suggestion.
#[allow(non_snake_case)]
#[derive(Debug, Clone)]
pub struct ReviewAiSuggestionRequest {
    pub status: String,
    pub reviewedBy: String,
    pub reviewNotes: Option<String>,
    pub feedbackRating: Option<i32>,
    pub feedbackNotes: Option<String>,
}

} // verus!
