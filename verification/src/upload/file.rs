//! An uploaded file fully buffered in memory.

use vstd::prelude::*;
use crate::text::{after_last, lemma_after_last_of_join, ascii_lower_seq, chars_of, lemma_last_index_of, lower_ascii,
    rfind_char, slice_chars, string_of_chars};
use crate::upload::buffer::{bytes_copy_from_slice, bytes_is_empty, bytes_len, bytes_view};
use crate::upload::validate::UploadValidator;

verus! {

broadcast use vstd::string::group_string_axioms;

/// What an uploaded file holds.
pub struct UploadedFileView {
    pub name: Seq<char>,
    pub file_name: Seq<char>,
    pub content_type: Seq<char>,
    pub data: Seq<u8>,
}

/// The content type assumed when the client names none.
pub open spec fn default_content_type() -> Seq<char> {
    "application/octet-stream"@
}

/// The extension of a file name: what follows its last dot, in ASCII
/// lowercase; none when the name holds no dot.
pub open spec fn extension_of(file_name: Seq<char>) -> Option<Seq<char>> {
    match after_last(file_name, '.') {
        Some(ext) => Some(ascii_lower_seq(ext)),
        None => None,
    }
}

/// The extension of `stem.ext` is `ext` in lowercase, whatever the stem,
/// when `ext` holds no dot.
pub proof fn lemma_extension_of_name(stem: Seq<char>, ext: Seq<char>)
    requires
        forall|i: int| 0 <= i < ext.len() ==> ext[i] != '.',
    ensures
        extension_of(stem + seq!['.'] + ext) == Some(ascii_lower_seq(ext)),
{
    lemma_after_last_of_join(stem, '.', ext);
}

/// An uploaded file fully buffered in memory.
pub struct UploadedFile {
    name: String,
    file_name: String,
    content_type: String,
    data: ::bytes::Bytes,
}

impl View for UploadedFile {
    type V = UploadedFileView;

    closed spec fn view(&self) -> UploadedFileView {
        UploadedFileView {
            name: self.name@,
            file_name: self.file_name@,
            content_type: self.content_type@,
            data: bytes_view(self.data),
        }
    }
}

impl UploadedFile {
    /// The file of a multipart field: a missing field name or file name
    /// reads as empty, a missing content type as
    /// `application/octet-stream`.
    pub fn from_parts(
        name: Option<String>,
        file_name: Option<String>,
        content_type: Option<String>,
        data: ::bytes::Bytes,
    ) -> (r: Self)
        ensures
            r@.name == (match name {
                Some(s) => s@,
                None => Seq::<char>::empty(),
            }),
            r@.file_name == (match file_name {
                Some(s) => s@,
                None => Seq::<char>::empty(),
            }),
            r@.content_type == (match content_type {
                Some(s) => s@,
                None => default_content_type(),
            }),
            r@.data == bytes_view(data),
    {
        let name = match name {
            Some(s) => s,
            None => String::new(),
        };
        let file_name = match file_name {
            Some(s) => s,
            None => String::new(),
        };
        let content_type = match content_type {
            Some(s) => s,
            None => String::from_str("application/octet-stream"),
        };
        UploadedFile { name, file_name, content_type, data }
    }

    /// A file built from plain values, without multipart parsing.
    pub fn __test_new(name: &str, file_name: &str, content_type: &str, data: &[u8]) -> (r: Self)
        ensures
            r@.name == name@,
            r@.file_name == file_name@,
            r@.content_type == content_type@,
            r@.data == data@,
    {
        UploadedFile {
            name: String::from_str(name),
            file_name: String::from_str(file_name),
            content_type: String::from_str(content_type),
            data: bytes_copy_from_slice(data),
        }
    }

    /// The multipart field name.
    pub fn name(&self) -> (r: &str)
        ensures
            r@ == self@.name,
    {
        self.name.as_str()
    }

    /// The original filename provided by the client.
    pub fn file_name(&self) -> (r: &str)
        ensures
            r@ == self@.file_name,
    {
        self.file_name.as_str()
    }

    /// The MIME content type.
    pub fn content_type(&self) -> (r: &str)
        ensures
            r@ == self@.content_type,
    {
        self.content_type.as_str()
    }

    /// The raw file bytes.
    pub fn data(&self) -> (r: &::bytes::Bytes)
        ensures
            bytes_view(*r) == self@.data,
    {
        &self.data
    }

    /// File size in bytes.
    pub fn size(&self) -> (r: usize)
        ensures
            r == self@.data.len(),
    {
        bytes_len(&self.data)
    }

    /// File extension from the original filename (lowercase, without dot).
    pub fn extension(&self) -> (r: Option<String>)
        ensures
            match r {
                Some(s) => extension_of(self@.file_name) == Some(s@),
                None => extension_of(self@.file_name) is None,
            },
    {
        let name = chars_of(self.file_name.as_str());
        match rfind_char(&name, '.') {
            Some(i) => {
                proof {
                    lemma_last_index_of(name@, '.');
                }
                let ext = slice_chars(&name, i + 1, name.len());
                let lower = lower_ascii(&ext);
                Some(string_of_chars(&lower))
            },
            None => None,
        }
    }

    /// Whether the file is empty (zero bytes).
    pub fn is_empty(&self) -> (r: bool)
        ensures
            r == (self@.data.len() == 0),
    {
        bytes_is_empty(&self.data)
    }

    /// Start building a validation chain.
    pub fn validate(&self) -> (r: UploadValidator<'_>)
        ensures
            r.file_view() == self@,
            r.messages() == Seq::<Seq<char>>::empty(),
    {
        UploadValidator::new(self)
    }
}

} // verus!
