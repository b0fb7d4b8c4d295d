//! The portable database document: the versioned wire format that export
//! produces and import consumes.

use vstd::prelude::*;

use crate::models::student::Student;

verus! {

/// A user record as the document carries it. The password hash is never
/// exported; imported users get a blank one.
#[allow(non_snake_case)]
#[derive(Debug, Clone)]
pub struct UserExport {
    pub id: String,
    pub name: String,
    pub email: String,
    pub role: String,
    pub institution: String,
    pub isActive: bool,
    pub created_at: String,
}

/// A counseling session as the document carries it.
#[allow(non_snake_case)]
#[derive(Debug, Clone)]
pub struct CounselingSessionExport {
    pub id: String,
    pub studentId: String,
    pub counselorId: String,
    pub date: String,
    pub duration: Option<i64>,
    pub session_type: String,
    pub topic: Option<String>,
    pub notes: Option<String>,
    pub created_at: String,
}

/// An academic record as the document carries it. The grade is a number in
/// the document; it is carried here as its decimal text, since the engine
/// never computes with it.
#[allow(non_snake_case)]
#[derive(Debug, Clone)]
pub struct AcademicRecordExport {
    pub id: String,
    pub studentId: String,
    pub term: String,
    pub subject: String,
    pub examType: String,
    pub grade: String,
    pub date: String,
    pub created_at: String,
}

/// A survey as the document carries it.
#[derive(Debug, Clone)]
pub struct SurveyExport {
    pub id: String,
    pub title: String,
    pub description: Option<String>,
    pub survey_type: String,
    pub status: String,
    pub created_at: String,
}

/// The whole portable document: a version literal, an export timestamp, and
/// five record collections.
#[derive(Debug, Clone)]
pub struct DatabaseExport {
    pub version: String,
    pub exported_at: String,
    pub students: Vec<Student>,
    pub users: Vec<UserExport>,
    pub counseling_sessions: Vec<CounselingSessionExport>,
    pub academic_records: Vec<AcademicRecordExport>,
    pub surveys: Vec<SurveyExport>,
}

} // verus!
