//! Views rendered from templates.

pub mod view;
