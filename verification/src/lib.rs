//! A capability-gated record store for per-patient health data.
//!
//! The store keeps three append-only collections in one aggregate value:
//! free-text analyses, structured daily-progress entries, and viewing-key
//! grants. Reading a patient's analyses requires presenting a viewing key
//! previously granted for that patient; daily progress is filtered by
//! patient identity alone.

pub mod laws;
pub mod msg;
pub mod state;
pub mod store;
