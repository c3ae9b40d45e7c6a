//! Core logic of the dictionary lookup service: request validation, error
//! classification, security policy, search query construction and the
//! labelling of query result rows with their schema.

pub mod error;
pub mod rows;
pub mod credentials;
pub mod dictionary;
pub mod validation;
pub mod format_validators;
pub mod config;
pub mod headers;
pub mod models;
