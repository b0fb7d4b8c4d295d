//! Academic study records: subjects, topics, progress and incidents.

use vstd::prelude::*;

verus! {

/// A dated intervention opened for a student.
#[allow(non_snake_case)]
#[derive(Debug, Clone)]
pub struct Intervention {
    pub id: String,
    pub studentId: String,
    pub date: String,
    pub title: String,
    pub status: String,
    pub created_at: String,
}

/// A school subject.
#[derive(Debug, Clone)]
pub struct Subject {
    pub id: String,
    pub name: String,
    pub code: Option<String>,
    pub description: Option<String>,
    pub color: Option<String>,
    pub created_at: String,
}

/// A topic within a subject.
#[allow(non_snake_case)]
#[derive(Debug, Clone)]
pub struct Topic {
    pub id: String,
    pub subjectId: String,
    pub name: String,
    pub description: Option<String>,
    pub difficulty: Option<String>,
    pub estimatedHours: i32,
    pub created_at: String,
}

/// A student's progress on one topic.
#[allow(non_snake_case)]
#[derive(Debug, Clone)]
pub struct Progress {
    pub id: String,
    pub studentId: String,
    pub topicId: String,
    pub completed: i32,
    pub remaining: i32,
    pub lastStudied: Option<String>,
    pub notes: Option<String>,
    pub created_at: String,
    pub updated_at: String,
}

/// A free-form note attached to a student.
#[allow(non_snake_case)]
#[derive(Debug, Clone)]
pub struct Note {
    pub id: String,
    pub studentId: String,
    pub title: String,
    pub content: Option<String>,
    pub category: Option<String>,
    pub tags: Option<String>,
    pub created_at: String,
    pub updated_at: String,
}

/// A study assignment with a due date.
#[allow(non_snake_case)]
#[derive(Debug, Clone)]
pub struct StudyAssignment {
    pub id: String,
    pub studentId: String,
    pub topicId: String,
    pub dueDate: String,
    pub status: String,
    pub notes: Option<String>,
    pub created_at: String,
    pub updated_at: String,
}

/// A recorded behavior incident with its full context.
#[allow(non_snake_case)]
#[derive(Debug, Clone)]
pub struct BehaviorIncident {
    pub id: String,
    pub studentId: String,
    pub incidentDate: String,
    pub incidentTime: String,
    pub location: String,
    pub behaviorType: String,
    pub behaviorCategory: String,
    pub description: String,
    pub antecedent: Option<String>,
    pub consequence: Option<String>,
    pub duration: Option<i32>,
    pub intensity: Option<String>,
    pub frequency: Option<String>,
    pub witnessedBy: Option<String>,
    pub othersInvolved: Option<String>,
    pub interventionUsed: Option<String>,
    pub interventionEffectiveness: Option<String>,
    pub parentNotified: bool,
    pub parentNotificationMethod: Option<String>,
    pub parentResponse: Option<String>,
    pub followUpRequired: bool,
    pub followUpDate: Option<String>,
    pub followUpNotes: Option<String>,
    pub adminNotified: bool,
    pub consequenceGiven: Option<String>,
    pub supportProvided: Option<String>,
    pub triggerAnalysis: Option<String>,
    pub patternNotes: Option<String>,
    pub positiveAlternative: Option<String>,
    pub status: String,
    pub recordedBy: String,
    pub notes: Option<String>,
    pub created_at: String,
    pub updated_at: String,
}

} // verus!
