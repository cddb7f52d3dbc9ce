//! Content-type patterns, size units and the fluent upload validator.

use vstd::prelude::*;
use crate::error::Error;
use crate::text::{chars_of, decimal, decimal_string, slice_chars, starts_with_chars, str_eq};
use crate::upload::file::{UploadedFile, UploadedFileView};

verus! {

broadcast use vstd::string::group_string_axioms;

/// Whether a content type matches a pattern: `*/*` matches everything,
/// `type/*` matches every subtype of `type`, any other pattern matches
/// itself only.
pub open spec fn mime_matches_spec(content_type: Seq<char>, pattern: Seq<char>) -> bool {
    if pattern == "*/*"@ {
        true
    } else if pattern.len() >= 2 && pattern.subrange(pattern.len() - 2, pattern.len() as int)
        == "/*"@ {
        let prefix = pattern.subrange(0, pattern.len() - 2);
        &&& prefix.len() < content_type.len()
        &&& content_type.subrange(0, prefix.len() as int) == prefix
        &&& content_type[prefix.len() as int] == '/'
    } else {
        content_type == pattern
    }
}

/// Check if a content type matches a pattern (e.g. `image/*` matches
/// `image/png`).
pub fn mime_matches(content_type: &str, pattern: &str) -> (r: bool)
    ensures
        r == mime_matches_spec(content_type@, pattern@),
{
    if str_eq(pattern, "*/*") {
        return true;
    }
    let p = chars_of(pattern);
    let c = chars_of(content_type);
    let n = p.len();
    proof {
        reveal_strlit("/*");
    }
    if n >= 2 && p[n - 2] == '/' && p[n - 1] == '*' {
        assert(p@.subrange(n - 2, n as int) =~= "/*"@);
        let prefix = slice_chars(&p, 0, n - 2);
        if prefix.len() < c.len() && starts_with_chars(&c, &prefix) {
            c[prefix.len()] == '/'
        } else {
            false
        }
    } else {
        assert(n >= 2 ==> p@.subrange(n - 2, n as int) != "/*"@) by {
            if n >= 2 {
                assert(p@.subrange(n - 2, n as int)[0] == p@[n - 2]);
                assert(p@.subrange(n - 2, n as int)[1] == p@[n - 1]);
            }
        }
        str_eq(content_type, pattern)
    }
}

/// Every content type matches itself as a pattern.
pub proof fn lemma_mime_matches_itself(content_type: Seq<char>)
    ensures
        mime_matches_spec(content_type, content_type),
{
    let n = content_type.len();
    if !(content_type == "*/*"@) && n >= 2 && content_type.subrange(n - 2, n as int) == "/*"@ {
        reveal_strlit("/*");
        let prefix = content_type.subrange(0, n - 2);
        assert(content_type.subrange(0, prefix.len() as int) =~= prefix);
        assert(content_type.subrange(n - 2, n as int)[0] == content_type[n - 2]);
    }
}

/// A `type/*` pattern matches every content type of that type:
/// `type/subtype` for any subtype.
pub proof fn lemma_wildcard_matches_subtypes(ty: Seq<char>, subtype: Seq<char>)
    ensures
        mime_matches_spec(ty + "/"@ + subtype, ty + "/*"@),
{
    reveal_strlit("/*");
    reveal_strlit("/");
    let pattern = ty + "/*"@;
    let ct = ty + "/"@ + subtype;
    assert(pattern.subrange(pattern.len() - 2, pattern.len() as int) =~= "/*"@);
    assert(pattern.subrange(0, pattern.len() - 2) =~= ty);
    assert(ct.subrange(0, ty.len() as int) =~= ty);
    assert(ct[ty.len() as int] == '/');
}

/// A `type/*` pattern (other than `*/*`) matches only content types of that
/// type: a content type that matches it begins with the type followed by
/// `/`.
pub proof fn lemma_wildcard_requires_type(content_type: Seq<char>, ty: Seq<char>)
    requires
        ty != "*"@,
    ensures
        mime_matches_spec(content_type, ty + "/*"@) ==> {
            &&& ty.len() < content_type.len()
            &&& content_type.subrange(0, ty.len() as int) == ty
            &&& content_type[ty.len() as int] == '/'
        },
{
    reveal_strlit("/*");
    reveal_strlit("*/*");
    reveal_strlit("*");
    let pattern = ty + "/*"@;
    assert(pattern.subrange(pattern.len() - 2, pattern.len() as int) =~= "/*"@);
    assert(pattern.subrange(0, pattern.len() - 2) =~= ty);
    if pattern == "*/*"@ {
        assert(ty =~= pattern.subrange(0, 1));
        assert(ty =~= "*"@);
    }
}

/// `*/*` matches every content type.
pub proof fn lemma_any_matches_everything(content_type: Seq<char>)
    ensures
        mime_matches_spec(content_type, "*/*"@),
{
}

/// A pattern without a wildcard matches exactly the content type that it
/// spells.
pub proof fn lemma_exact_pattern(content_type: Seq<char>, pattern: Seq<char>)
    requires
        forall|i: int| 0 <= i < pattern.len() ==> pattern[i] != '*',
    ensures
        mime_matches_spec(content_type, pattern) <==> content_type == pattern,
{
    reveal_strlit("/*");
    reveal_strlit("*/*");
    let n = pattern.len();
    if pattern == "*/*"@ {
        assert(pattern[0] == '*');
    }
    if n >= 2 && pattern.subrange(n - 2, n as int) == "/*"@ {
        assert(pattern.subrange(n - 2, n as int)[1] == pattern[n - 1]);
    }
}

/// Bytes in a kilobyte, a megabyte and a gigabyte.
pub open spec fn kib() -> nat {
    1024
}

pub open spec fn mib() -> nat {
    1048576
}

pub open spec fn gib() -> nat {
    1073741824
}

/// A byte count in the largest whole unit that it reaches.
pub open spec fn size_label(bytes: nat) -> Seq<char> {
    if bytes >= gib() {
        decimal(bytes / gib()) + "GB"@
    } else if bytes >= mib() {
        decimal(bytes / mib()) + "MB"@
    } else if bytes >= kib() {
        decimal(bytes / kib()) + "KB"@
    } else {
        decimal(bytes) + "B"@
    }
}

/// A kilobyte is 1024 bytes and each larger unit 1024 of the one below;
/// a size is labelled in the largest unit that it reaches, with a whole
/// count from 1 to 1023 of that unit (any count of gigabytes), rounded
/// down.
pub proof fn lemma_size_label_units(bytes: nat)
    ensures
        kib() == 1024,
        mib() == 1024 * kib(),
        gib() == 1024 * mib(),
        bytes < 1024 ==> size_label(bytes) == decimal(bytes) + "B"@,
        1024 <= bytes < 1048576 ==> size_label(bytes) == decimal(bytes / 1024) + "KB"@ && 1
            <= bytes / 1024 < 1024,
        1048576 <= bytes < 1073741824 ==> size_label(bytes) == decimal(bytes / 1048576) + "MB"@
            && 1 <= bytes / 1048576 < 1024,
        1073741824 <= bytes ==> size_label(bytes) == decimal(bytes / 1073741824) + "GB"@ && 1
            <= bytes / 1073741824,
{
}

/// Render a byte count such as `5MB` or `500B`, rounding down to the
/// largest whole unit.
pub fn format_size(bytes: usize) -> (r: String)
    ensures
        r@ == size_label(bytes as nat),
{
    if bytes >= 1073741824 {
        decimal_string((bytes / 1073741824) as u64).concat("GB")
    } else if bytes >= 1048576 {
        decimal_string((bytes / 1048576) as u64).concat("MB")
    } else if bytes >= 1024 {
        decimal_string((bytes / 1024) as u64).concat("KB")
    } else {
        decimal_string(bytes as u64).concat("B")
    }
}

/// Convert megabytes to bytes.
pub fn mb(n: usize) -> (r: usize)
    requires
        n * mib() <= usize::MAX,
    ensures
        r == n * mib(),
{
    n * 1024 * 1024
}

/// Convert kilobytes to bytes.
pub fn kb(n: usize) -> (r: usize)
    requires
        n * kib() <= usize::MAX,
    ensures
        r == n * kib(),
{
    n * 1024
}

/// Convert gigabytes to bytes.
pub fn gb(n: usize) -> (r: usize)
    requires
        n * gib() <= usize::MAX,
    ensures
        r == n * gib(),
{
    n * 1024 * 1024 * 1024
}

/// The message for a file larger than `max` bytes.
pub open spec fn too_large_message(max: nat) -> Seq<char> {
    "File exceeds maximum size of "@ + size_label(max)
}

/// The message for a content type that does not match `pattern`.
pub open spec fn wrong_type_message(pattern: Seq<char>) -> Seq<char> {
    "File type must match "@ + pattern
}

/// The text of each message.
pub open spec fn texts(v: Seq<String>) -> Seq<Seq<char>> {
    v.map_values(|s: String| s@)
}

/// Fluent validator for uploaded files.
pub struct UploadValidator<'a> {
    file: &'a UploadedFile,
    errors: Vec<String>,
}

impl<'a> UploadValidator<'a> {
    /// The file under validation.
    pub closed spec fn file_view(&self) -> UploadedFileView {
        self.file@
    }

    /// The messages collected so far, in order.
    pub closed spec fn messages(&self) -> Seq<Seq<char>> {
        texts(self.errors@)
    }

    /// A validator for `file` with no message yet.
    pub fn new(file: &'a UploadedFile) -> (r: Self)
        ensures
            r.file_view() == file@,
            r.messages() == Seq::<Seq<char>>::empty(),
    {
        let r = UploadValidator { file, errors: Vec::new() };
        assert(r.messages() =~= Seq::<Seq<char>>::empty());
        r
    }

    /// Reject if the file exceeds `max` bytes.
    pub fn max_size(self, max: usize) -> (r: Self)
        ensures
            r.file_view() == self.file_view(),
            r.messages() == if self.file_view().data.len() > max {
                self.messages().push(too_large_message(max as nat))
            } else {
                self.messages()
            },
    {
        let mut v = self;
        if v.file.size() > max {
            let msg = String::from_str("File exceeds maximum size of ").concat(
                format_size(max).as_str(),
            );
            let ghost before = v.errors@;
            v.errors.push(msg);
            assert(texts(v.errors@) =~= texts(before).push(too_large_message(max as nat)));
        }
        v
    }

    /// Reject if the content type doesn't match `pattern`.
    /// Supports exact types (`image/png`) and wildcard subtypes (`image/*`).
    pub fn accept(self, pattern: &str) -> (r: Self)
        ensures
            r.file_view() == self.file_view(),
            r.messages() == if !mime_matches_spec(self.file_view().content_type, pattern@) {
                self.messages().push(wrong_type_message(pattern@))
            } else {
                self.messages()
            },
    {
        let mut v = self;
        if !mime_matches(v.file.content_type(), pattern) {
            let msg = String::from_str("File type must match ").concat(pattern);
            let ghost before = v.errors@;
            v.errors.push(msg);
            assert(texts(v.errors@) =~= texts(before).push(wrong_type_message(pattern@)));
        }
        v
    }

    /// Finish validation: `Ok` when no check failed, else one validation
    /// error for the file's field holding every message in order.
    pub fn check(self) -> (r: Result<(), Error>)
        ensures
            r is Ok <==> self.messages().len() == 0,
            r matches Err(e) ==> e matches Error::Validation(fields) && fields@.len() == 1
                && fields@[0].0@ == self.file_view().name && texts(fields@[0].1@)
                == self.messages(),
    {
        if self.errors.len() == 0 {
            Ok(())
        } else {
            let name = String::from_str(self.file.name());
            let mut fields: Vec<(String, Vec<String>)> = Vec::new();
            fields.push((name, self.errors));
            Err(Error::Validation(fields))
        }
    }
}

} // verus!
