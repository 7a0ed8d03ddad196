//! Test registration, selection and result bookkeeping for a test harness.
pub mod text;
pub mod registry;
pub mod selection;
pub mod generation;
pub mod outcome;
pub mod laws;
