//! The entity record types of the wider application, grouped as the store
//! groups them. They are plain data: the engines and the command layer pass
//! them around by value.

pub mod academic;
pub mod counseling;
pub mod file;
pub mod notification;
pub mod settings;
pub mod student;
pub mod suggestion;
pub mod survey;
pub mod user;
