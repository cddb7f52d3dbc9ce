//! Upload configuration.

use vstd::prelude::*;

verus! {

broadcast use vstd::string::group_string_axioms;

/// Storage backend selector.
#[derive(Debug, Clone, Copy, PartialEq, Eq, Structural)]
pub enum StorageBackend {
    /// Local filesystem storage (default).
    Local,
    /// S3-compatible object storage.
    S3,
}

impl Default for StorageBackend {
    fn default() -> (r: Self)
        ensures
            r == StorageBackend::Local,
    {
        StorageBackend::Local
    }
}

/// S3-compatible storage configuration.
#[derive(Debug, Clone)]
pub struct S3Config {
    /// S3 bucket name.
    pub bucket: String,
    /// AWS region.
    pub region: String,
    /// Custom endpoint URL (for S3-compatible services like MinIO).
    pub endpoint: String,
    /// AWS access key ID.
    pub access_key_id: String,
    /// AWS secret access key.
    pub secret_access_key: String,
}

impl Default for S3Config {
    fn default() -> (r: Self)
        ensures
            r.bucket@ == Seq::<char>::empty(),
            r.region@ == Seq::<char>::empty(),
            r.endpoint@ == Seq::<char>::empty(),
            r.access_key_id@ == Seq::<char>::empty(),
            r.secret_access_key@ == Seq::<char>::empty(),
    {
        S3Config {
            bucket: String::new(),
            region: String::new(),
            endpoint: String::new(),
            access_key_id: String::new(),
            secret_access_key: String::new(),
        }
    }
}

/// Upload configuration. Irrelevant fields are ignored for the active
/// backend.
#[derive(Debug, Clone)]
pub struct UploadConfig {
    /// Which storage backend to use.
    pub backend: StorageBackend,
    /// Local directory for file uploads.
    pub path: String,
    /// S3 configuration.
    pub s3: S3Config,
}

impl Default for UploadConfig {
    fn default() -> (r: Self)
        ensures
            r.backend == StorageBackend::Local,
            r.path@ == "./uploads"@,
            r.s3.bucket@ == Seq::<char>::empty(),
            r.s3.region@ == Seq::<char>::empty(),
            r.s3.endpoint@ == Seq::<char>::empty(),
            r.s3.access_key_id@ == Seq::<char>::empty(),
            r.s3.secret_access_key@ == Seq::<char>::empty(),
    {
        UploadConfig {
            backend: StorageBackend::default(),
            path: String::from_str("./uploads"),
            s3: S3Config::default(),
        }
    }
}

} // verus!
