//! Bookkeeping core of a distributed package-build service.
//!
//! The crate tracks the lifecycle of individual build jobs, aggregates jobs
//! into dependency-ordered build groups, maintains the availability registry
//! of remote build workers, and folds failures from the surrounding
//! subsystems into one error taxonomy with a fixed status mapping.

pub mod error;
pub mod jobs;
pub mod groups;
pub mod workers;
pub mod facade;
pub mod rows;
