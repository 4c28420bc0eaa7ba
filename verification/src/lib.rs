//! The data model of a full-text search index: documents and the posting
//! records that say where a word occurs in a document.
//!
//! `models` holds the two record types with their contracts; `laws` holds
//! what follows from those contracts for every record, proved once.

pub mod models;
pub mod laws;
