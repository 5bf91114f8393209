//! Movie notes: the records a note-taking service keeps about movies, the
//! in-memory table that gives the service its meaning, and the decisions its
//! request handlers make around the persistent store.

pub mod note;
pub mod table;
pub mod laws;
pub mod service;
