//! Transactional email: configuration and mailer construction.

pub mod config;
pub mod mailer;
