//! Survey templates, questions, distributions and responses.

use vstd::prelude::*;

verus! {

/// A reusable survey template.
#[allow(non_snake_case)]
#[derive(Debug, Clone)]
pub struct SurveyTemplate {
    pub id: String,
    pub title: String,
    pub description: Option<String>,
    pub survey_type: String,
    pub mebCompliant: bool,
    pub isActive: bool,
    pub createdBy: Option<String>,
    pub tags: Option<String>,
    pub estimatedDuration: Option<i32>,
    pub targetGrades: Option<String>,
    pub created_at: String,
    pub updated_at: String,
}

/// One question of a survey template.
#[allow(non_snake_case)]
#[derive(Debug, Clone)]
pub struct SurveyQuestion {
    pub id: String,
    pub templateId: String,
    pub questionText: String,
    pub questionType: String,
    pub required: bool,
    pub orderIndex: i32,
    pub options: Option<String>,
    pub validation: Option<String>,
    pub created_at: String,
}

/// A distribution of a template to a set of respondents.
#[allow(non_snake_case)]
#[derive(Debug, Clone)]
pub struct SurveyDistribution {
    pub id: String,
    pub templateId: String,
    pub title: String,
    pub description: Option<String>,
    pub targetClasses: Option<String>,
    pub targetStudents: Option<String>,
    pub distributionType: String,
    pub excelTemplate: Option<String>,
    pub publicLink: Option<String>,
    pub startDate: Option<String>,
    pub endDate: Option<String>,
    pub allowAnonymous: bool,
    pub maxResponses: Option<i32>,
    pub status: String,
    pub createdBy: Option<String>,
    pub created_at: String,
    pub updated_at: String,
}

/// One respondent's answers to a distribution.
#[allow(non_snake_case)]
#[derive(Debug, Clone)]
pub struct SurveyResponse {
    pub id: String,
    pub distributionId: String,
    pub studentId: Option<String>,
    pub studentInfo: Option<String>,
    pub responseData: String,
    pub submissionType: String,
    pub isComplete: bool,
    pub submittedAt: Option<String>,
    pub ipAddress: Option<String>,
    pub userAgent: Option<String>,
    pub created_at: String,
    pub updated_at: String,
}

/// A legacy-style survey attached directly to a student.
#[allow(non_snake_case)]
#[derive(Debug, Clone)]
pub struct Survey {
    pub id: String,
    pub studentId: String,
    pub survey_type: String,
    pub questions: String,
    pub responses: Option<String>,
    pub completed: bool,
    pub created_at: String,
    pub updated_at: String,
}

} // verus!
