//! Multi-tenant role guards.

pub mod guard;
pub mod resolve;
