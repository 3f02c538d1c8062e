//! A local issue-tracking store: epics that own stories, kept as one
//! persisted state behind a pluggable storage backend.
//!
//! [`models`] holds the entities and the persisted state with its
//! mathematical model, [`rules`] the consistency rules of every mutation,
//! [`db`] the storage contract and the record store that wraps each
//! mutation in one load and one persist, and [`laws`] what holds of all of
//! them together.

pub mod db;
pub mod error;
pub mod laws;
pub mod models;
pub mod rules;
