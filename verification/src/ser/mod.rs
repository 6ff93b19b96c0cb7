//! The encoding direction: the error it reports.
pub mod serialization_error;
