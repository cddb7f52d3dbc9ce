//! CSRF protection: configuration and the template helpers that render
//! the token.

pub mod config;
pub mod template;
