//! Application-wide settings and configuration records.

use vstd::prelude::*;

verus! {

/// The one settings row the store keeps, as serialized text.
#[derive(Debug, Clone)]
pub struct AppSettings {
    pub id: i32,
    pub settings: String,
    pub created_at: String,
    pub updated_at: String,
}

/// A stored login session.
#[allow(non_snake_case)]
#[derive(Debug, Clone)]
pub struct UserSession {
    pub id: String,
    pub userId: String,
    pub token: String,
    pub expiresAt: String,
    pub created_at: String,
}

/// The user-facing configuration options.
#[allow(non_snake_case)]
#[derive(Debug, Clone)]
pub struct AppConfig {
    pub aiProvider: Option<String>,
    pub openaiApiKey: Option<String>,
    pub geminiApiKey: Option<String>,
    pub ollamaEndpoint: Option<String>,
    pub ollamaModel: Option<String>,
    pub theme: Option<String>,
    pub language: Option<String>,
    pub autoBackup: Option<bool>,
    pub backupFrequency: Option<String>,
}

} // verus!
