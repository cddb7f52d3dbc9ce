//! Identifier generation and database error mapping.

pub mod id;
pub mod error;
