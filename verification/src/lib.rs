//! A typed codec for form-field values.
//!
//! Field values travel as JSON documents. This crate turns such documents into
//! typed presenters and back, and checks decoded presenters against the field
//! types a caller expects. Every function states what it returns as a contract
//! over a mathematical model of the documents, and the contracts are proved.

pub mod inputs;
pub mod json;
pub mod networking;
pub mod outputs;
pub mod request;
pub mod text;
pub mod value_presenter;
