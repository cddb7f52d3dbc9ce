//! Session support: device detection, request fingerprints and the
//! session lifecycle.

pub mod device;
pub mod fingerprint;
pub mod types;
pub mod manager;
pub mod cookie;
