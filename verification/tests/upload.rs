use modo::upload::config::{StorageBackend, UploadConfig};
use modo::upload::file::UploadedFile;
use modo::upload::storage::{filename_with_id, generate_filename};
use modo::upload::stream::UploadStream;
use modo::upload::validate::{format_size, gb, kb, mb, mime_matches};
use modo::error::Error;

fn file_with_name(file_name: &str) -> UploadedFile {
    UploadedFile::__test_new("f", file_name, "application/octet-stream", b"")
}

#[test]
fn extension_lowercase() {
    assert_eq!(file_with_name("photo.JPG").extension(), Some("jpg".into()));
}

#[test]
fn extension_compound() {
    assert_eq!(file_with_name("archive.tar.gz").extension(), Some("gz".into()));
}

#[test]
fn extension_dotfile() {
    assert_eq!(file_with_name(".gitignore").extension(), Some("gitignore".into()));
}

#[test]
fn extension_none() {
    assert_eq!(file_with_name("noext").extension(), None);
}

#[test]
fn extension_trailing_dot_is_empty() {
    assert_eq!(file_with_name("file.").extension(), Some(String::new()));
}

#[test]
fn mime_exact_match() {
    assert!(mime_matches("image/png", "image/png"));
    assert!(!mime_matches("image/jpeg", "image/png"));
}

#[test]
fn mime_wildcard_match() {
    assert!(mime_matches("image/png", "image/*"));
    assert!(mime_matches("image/jpeg", "image/*"));
    assert!(!mime_matches("text/plain", "image/*"));
}

#[test]
fn mime_any_match() {
    assert!(mime_matches("anything/here", "*/*"));
}

#[test]
fn mime_wildcard_needs_slash_after_prefix() {
    assert!(!mime_matches("imagex/png", "image/*"));
    assert!(!mime_matches("image", "image/*"));
    assert!(mime_matches("image/", "image/*"));
}

#[test]
fn size_helpers() {
    assert_eq!(kb(1), 1024);
    assert_eq!(mb(1), 1024 * 1024);
    assert_eq!(gb(1), 1024 * 1024 * 1024);
    assert_eq!(mb(5), 5 * 1024 * 1024);
}

#[test]
fn format_size_display() {
    assert_eq!(format_size(500), "500B");
    assert_eq!(format_size(1024), "1KB");
    assert_eq!(format_size(5 * 1024 * 1024), "5MB");
    assert_eq!(format_size(2 * 1024 * 1024 * 1024), "2GB");
}

#[test]
fn format_size_rounds_down() {
    assert_eq!(format_size(0), "0B");
    assert_eq!(format_size(1023), "1023B");
    assert_eq!(format_size(1536), "1KB");
    assert_eq!(format_size(1024 * 1024 - 1), "1023KB");
}

#[test]
fn test_default_config() {
    let config = UploadConfig::default();
    assert_eq!(config.path, "./uploads");
    assert_eq!(config.backend, StorageBackend::Local);
    assert_eq!(config.s3.bucket, "");
}

#[test]
fn file_accessors() {
    let f = UploadedFile::__test_new("avatar", "me.png", "image/png", b"abc");
    assert_eq!(f.name(), "avatar");
    assert_eq!(f.file_name(), "me.png");
    assert_eq!(f.content_type(), "image/png");
    assert_eq!(f.size(), 3);
    assert!(!f.is_empty());
    assert_eq!(&f.data()[..], b"abc");
    assert!(file_with_name("x").is_empty());
}

#[test]
fn file_from_parts_defaults() {
    let f = UploadedFile::from_parts(None, None, None, bytes::Bytes::from_static(b"zz"));
    assert_eq!(f.name(), "");
    assert_eq!(f.file_name(), "");
    assert_eq!(f.content_type(), "application/octet-stream");
    assert_eq!(f.size(), 2);
}

#[test]
fn validator_passes() {
    let f = UploadedFile::__test_new("avatar", "me.png", "image/png", b"abc");
    assert!(f.validate().max_size(10).accept("image/*").check().is_ok());
}

#[test]
fn validator_collects_messages() {
    let f = UploadedFile::__test_new("avatar", "me.txt", "text/plain", &[0u8; 2048]);
    let err = f.validate().max_size(kb(1)).accept("image/*").check().unwrap_err();
    match err {
        Error::Validation(fields) => {
            assert_eq!(fields.len(), 1);
            assert_eq!(fields[0].0, "avatar");
            assert_eq!(
                fields[0].1,
                vec![
                    "File exceeds maximum size of 1KB".to_string(),
                    "File type must match image/*".to_string()
                ]
            );
        }
        other => panic!("unexpected error {other:?}"),
    }
}

#[test]
fn generated_filename_keeps_extension() {
    let name = generate_filename("photo.JPG");
    assert_eq!(name.len(), 26 + 4);
    assert!(name.ends_with(".JPG"));
    assert!(name[..26].chars().all(|c| c.is_ascii_digit() || c.is_ascii_lowercase()));
    let bare = generate_filename("README");
    assert_eq!(bare.len(), 26);
    assert_eq!(filename_with_id("01abc", "a.tar.gz"), "01abc.gz");
    assert_eq!(filename_with_id("01abc", "noext"), "01abc");
}

#[test]
fn stream_yields_chunks_in_order() {
    let chunks = vec![bytes::Bytes::from_static(b"ab"), bytes::Bytes::from_static(b"cde")];
    let mut s = UploadStream::from_parts(Some("doc".into()), Some("a.bin".into()), None, chunks);
    assert_eq!(s.name(), "doc");
    assert_eq!(s.file_name(), "a.bin");
    assert_eq!(s.content_type(), "application/octet-stream");
    assert_eq!(s.size(), 5);
    assert_eq!(s.chunk().unwrap(), bytes::Bytes::from_static(b"ab"));
    assert_eq!(s.chunk().unwrap(), bytes::Bytes::from_static(b"cde"));
    assert!(s.chunk().is_none());
    assert!(s.chunk().is_none());
    assert_eq!(s.size(), 5);
    assert_eq!(s.into_chunks().len(), 2);
}
