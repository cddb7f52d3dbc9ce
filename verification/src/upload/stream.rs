//! A streamed upload: the chunks of a multipart field, read back in order.

use vstd::prelude::*;
use crate::upload::buffer::{bytes_clone, bytes_len, bytes_view};
use crate::upload::file::default_content_type;

verus! {

broadcast use vstd::string::group_string_axioms;

/// The total number of bytes in a sequence of chunks.
pub open spec fn total_len(chunks: Seq<Seq<u8>>) -> nat
    decreases chunks.len(),
{
    if chunks.len() == 0 {
        0
    } else {
        total_len(chunks.drop_last()) + chunks.last().len()
    }
}

/// The bytes of each chunk.
pub open spec fn chunk_views(chunks: Seq<::bytes::Bytes>) -> Seq<Seq<u8>> {
    chunks.map_values(|b: ::bytes::Bytes| bytes_view(b))
}

/// A streaming uploaded file: data arrives as chunks, not one contiguous
/// buffer, and is consumed with `chunk()`.
pub struct UploadStream {
    name: String,
    file_name: String,
    content_type: String,
    chunks: Vec<::bytes::Bytes>,
    pos: usize,
}

impl UploadStream {
    #[verifier::type_invariant]
    closed spec fn inv(self) -> bool {
        self.pos <= self.chunks@.len()
    }

    /// The multipart field name.
    pub closed spec fn name_view(&self) -> Seq<char> {
        self.name@
    }

    /// The original filename provided by the client.
    pub closed spec fn file_name_view(&self) -> Seq<char> {
        self.file_name@
    }

    /// The MIME content type.
    pub closed spec fn content_type_view(&self) -> Seq<char> {
        self.content_type@
    }

    /// All chunks of the upload, in arrival order.
    pub closed spec fn chunks_view(&self) -> Seq<Seq<u8>> {
        chunk_views(self.chunks@)
    }

    /// How many chunks have been read.
    pub closed spec fn position(&self) -> nat {
        self.pos as nat
    }

    /// The upload of a multipart field whose chunks were collected: a
    /// missing field name or file name reads as empty, a missing content
    /// type as `application/octet-stream`. No chunk has been read yet.
    pub fn from_parts(
        name: Option<String>,
        file_name: Option<String>,
        content_type: Option<String>,
        chunks: Vec<::bytes::Bytes>,
    ) -> (r: Self)
        ensures
            r.name_view() == (match name {
                Some(s) => s@,
                None => Seq::<char>::empty(),
            }),
            r.file_name_view() == (match file_name {
                Some(s) => s@,
                None => Seq::<char>::empty(),
            }),
            r.content_type_view() == (match content_type {
                Some(s) => s@,
                None => default_content_type(),
            }),
            r.chunks_view() == chunk_views(chunks@),
            r.position() == 0,
    {
        let name = match name {
            Some(s) => s,
            None => String::new(),
        };
        let file_name = match file_name {
            Some(s) => s,
            None => String::new(),
        };
        let content_type = match content_type {
            Some(s) => s,
            None => String::from_str("application/octet-stream"),
        };
        UploadStream { name, file_name, content_type, chunks, pos: 0 }
    }

    /// The multipart field name.
    pub fn name(&self) -> (r: &str)
        ensures
            r@ == self.name_view(),
    {
        self.name.as_str()
    }

    /// The original filename provided by the client.
    pub fn file_name(&self) -> (r: &str)
        ensures
            r@ == self.file_name_view(),
    {
        self.file_name.as_str()
    }

    /// The MIME content type.
    pub fn content_type(&self) -> (r: &str)
        ensures
            r@ == self.content_type_view(),
    {
        self.content_type.as_str()
    }

    /// Read the next chunk. Returns `None` once all chunks are consumed.
    pub fn chunk(&mut self) -> (r: Option<::bytes::Bytes>)
        ensures
            final(self).chunks_view() == old(self).chunks_view(),
            final(self).name_view() == old(self).name_view(),
            final(self).file_name_view() == old(self).file_name_view(),
            final(self).content_type_view() == old(self).content_type_view(),
            old(self).position() < old(self).chunks_view().len() ==> {
                &&& r matches Some(b) && bytes_view(b) == old(self).chunks_view()[old(
                    self,
                ).position() as int]
                &&& final(self).position() == old(self).position() + 1
            },
            old(self).position() >= old(self).chunks_view().len() ==> {
                &&& r is None
                &&& final(self).position() == old(self).position()
            },
            final(self).position() <= final(self).chunks_view().len(),
    {
        proof {
            use_type_invariant(&*self);
        }
        if self.pos < self.chunks.len() {
            let c = bytes_clone(&self.chunks[self.pos]);
            self.pos = self.pos + 1;
            Some(c)
        } else {
            None
        }
    }

    /// All chunks, whether read or not, in arrival order; what a reader
    /// over the upload yields.
    pub fn into_chunks(self) -> (r: Vec<::bytes::Bytes>)
        ensures
            chunk_views(r@) == self.chunks_view(),
    {
        self.chunks
    }

    /// Total size of all collected chunks in bytes.
    pub fn size(&self) -> (r: usize)
        requires
            total_len(self.chunks_view()) <= usize::MAX,
        ensures
            r == total_len(self.chunks_view()),
    {
        let mut sum: usize = 0;
        let mut i: usize = 0;
        let ghost all = chunk_views(self.chunks@);
        while i < self.chunks.len()
            invariant
                all == chunk_views(self.chunks@),
                total_len(all) <= usize::MAX,
                i <= self.chunks@.len(),
                sum == total_len(all.take(i as int)),
            decreases self.chunks@.len() - i,
        {
            proof {
                assert(all.take(i + 1).drop_last() =~= all.take(i as int));
                lemma_total_len_prefix(all, i + 1);
            }
            sum = sum + bytes_len(&self.chunks[i]);
            i = i + 1;
        }
        assert(all.take(i as int) =~= all);
        sum
    }
}

/// The bytes of a prefix never exceed those of the whole sequence.
pub proof fn lemma_total_len_prefix(chunks: Seq<Seq<u8>>, n: int)
    requires
        0 <= n <= chunks.len(),
    ensures
        total_len(chunks.take(n)) <= total_len(chunks),
    decreases chunks.len(),
{
    if n < chunks.len() {
        assert(chunks.drop_last().take(n) =~= chunks.take(n));
        lemma_total_len_prefix(chunks.drop_last(), n);
    } else {
        assert(chunks.take(n) =~= chunks);
    }
}

} // verus!
