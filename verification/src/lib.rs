//! Verified core of the modo web framework: request and session helpers,
//! upload validation, role guards and configuration defaults.

pub mod text;
pub mod session;
pub mod error;
pub mod tenant;
pub mod upload;
pub mod db;
pub mod email;
pub mod csrf;
pub mod request_id;
pub mod router;
pub mod middleware;
pub mod auth;
pub mod templates;
pub mod jobs;
