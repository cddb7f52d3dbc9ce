//! Loading the signed-in user.

pub mod provider;
