//! File uploads: configuration, buffered and streamed files, validation
//! and stored-file naming.

pub mod config;
pub mod buffer;
pub mod file;
pub mod storage;
pub mod stream;
pub mod validate;
