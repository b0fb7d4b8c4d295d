//! Student records and the requests that create and update them.

use vstd::prelude::*;

verus! {

/// A full student record as the current store holds it.
#[allow(non_snake_case)]
#[derive(Debug, Clone)]
pub struct Student {
    pub id: String,
    pub name: String,
    pub surname: String,
    pub email: Option<String>,
    pub phone: Option<String>,
    pub birthDate: Option<String>,
    pub address: Option<String>,
    pub class: Option<String>,
    pub enrollmentDate: String,
    pub status: String,
    pub avatar: Option<String>,
    pub parentContact: Option<String>,
    pub notes: Option<String>,
    pub gender: String,
    pub risk: String,
    pub created_at: String,
    pub updated_at: String,
}

/// The fields a caller supplies to create a student.
#[allow(non_snake_case)]
#[derive(Debug, Clone)]
pub struct CreateStudentRequest {
    pub name: String,
    pub surname: String,
    pub email: Option<String>,
    pub phone: Option<String>,
    pub birthDate: Option<String>,
    pub address: Option<String>,
    pub class: Option<String>,
    pub enrollmentDate: String,
    pub parentContact: Option<String>,
    pub notes: Option<String>,
    pub gender: Option<String>,
}

/// The fields a caller may change on a student.
#[allow(non_snake_case)]
#[derive(Debug, Clone)]
pub struct UpdateStudentRequest {
    pub name: Option<String>,
    pub surname: Option<String>,
    pub email: Option<String>,
    pub phone: Option<String>,
    pub birthDate: Option<String>,
    pub address: Option<String>,
    pub class: Option<String>,
    pub parentContact: Option<String>,
    pub notes: Option<String>,
    pub gender: Option<String>,
    pub risk: Option<String>,
}

} // verus!
