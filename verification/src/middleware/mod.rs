//! What the response middlewares decide.

pub mod security_headers;
pub mod trailing_slash;
