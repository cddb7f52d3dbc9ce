//! Stored files and the names that uploads are stored under.

use vstd::prelude::*;
use crate::db::id::{generate_ulid, is_lower_ulid};
use crate::text::{after_last, last_index_of, chars_of, lemma_last_index_of, rfind_char, slice_chars,
    string_of_chars};

verus! {

broadcast use vstd::string::group_string_axioms;

/// Metadata for a stored file.
#[derive(Debug, Clone)]
pub struct StoredFile {
    /// Relative path within the storage backend (e.g. `avatars/01hxk3q1a2b3.jpg`).
    pub path: String,
    /// File size in bytes.
    pub size: u64,
}

/// The part of a stored name that follows the identifier: a dot and the
/// original's extension (its case kept), or nothing when the original name
/// holds no dot.
pub open spec fn extension_suffix(original: Seq<char>) -> Seq<char> {
    match after_last(original, '.') {
        Some(ext) => "."@ + ext,
        None => Seq::<char>::empty(),
    }
}

/// The stored name for identifier `id` and original file name `original`:
/// `{id}.{ext}`, or `{id}` alone.
pub fn filename_with_id(id: &str, original: &str) -> (r: String)
    ensures
        r@ == id@ + extension_suffix(original@),
{
    let name = chars_of(original);
    let n = name.len();
    match rfind_char(&name, '.') {
        Some(i) => {
            proof {
                lemma_last_index_of(name@, '.');
            }
            let ext = slice_chars(&name, i + 1, n);
            let e = string_of_chars(&ext);
            String::from_str(id).concat(".").concat(e.as_str())
        },
        None => {
            assert(id@ + extension_suffix(original@) =~= id@);
            String::from_str(id)
        },
    }
}

/// The stored name keeps the upload's extension, case and all, provided
/// that the identifier holds no dot.
pub proof fn lemma_stored_name_keeps_extension(id: Seq<char>, original: Seq<char>)
    requires
        forall|i: int| 0 <= i < id.len() ==> id[i] != '.',
    ensures
        after_last(id + extension_suffix(original), '.') == after_last(original, '.'),
{
    reveal_strlit(".");
    let full = id + extension_suffix(original);
    lemma_last_index_of(original, '.');
    lemma_last_index_of(full, '.');
    match after_last(original, '.') {
        Some(ext) => {
            let k = last_index_of(original, '.');
            assert(full == id + seq!['.'] + ext);
            assert(full[id.len() as int] == '.');
            assert forall|j: int| id.len() < j < full.len() implies full[j] != '.' by {
                assert(full[j] == original[k + 1 + (j - id.len() - 1)]);
            }
            assert(last_index_of(full, '.') == id.len());
            assert(full.subrange(id.len() as int + 1, full.len() as int) =~= ext);
        },
        None => {
            assert(full =~= id);
            assert(last_index_of(full, '.') == -1) by {
                if last_index_of(full, '.') >= 0 {
                    assert(full[last_index_of(full, '.')] == '.');
                }
            }
        },
    }
}

/// Generate a unique filename: `{ulid}.{ext}`, with a fresh lowercase ULID.
pub fn generate_filename(original: &str) -> (r: String)
    ensures
        r@.len() >= 26,
        is_lower_ulid(r@.take(26)),
        r@.skip(26) == extension_suffix(original@),
{
    let id = generate_ulid();
    let r = filename_with_id(id.as_str(), original);
    assert(r@.take(26) =~= id@);
    assert(r@.skip(26) =~= extension_suffix(original@));
    r
}

} // verus!
