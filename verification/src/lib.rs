//! A tick-driven request cache: it decides which requests must run, takes in
//! what finished, serves cached answers and drives ordered sequences.

pub mod extractor;
pub mod json;
pub mod laws;
pub mod model;
pub mod query;
pub mod tables;
pub mod tasks;

pub use crate::extractor::ErrorResponse;
pub use crate::query::Query;
