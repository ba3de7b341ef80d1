//! Stream descriptors and the response metadata computed for them.
//!
//! A [`FileStream`] pairs an opaque byte source with the metadata a download
//! response needs (file name, size). Turning a descriptor into a response is
//! split: this module computes the complete head — status and header values
//! as plain strings — and hands the byte source back, and the unverified
//! boundary only copies those into its transport's response type.

use vstd::prelude::*;

use crate::decimal::dec_rep;
use crate::decimal::push_dec;
use crate::range::STATUS_OK;
use crate::range::STATUS_PARTIAL_CONTENT;

verus! {

/// A not-yet-transmitted file body plus its metadata. `S` is the byte
/// source; this library never looks inside it.
pub struct FileStream<S> {
    /// The byte source the response body will be read from.
    pub stream: S,
    /// The file's base name, if known.
    pub file_name: Option<String>,
    /// The file's size in bytes, if known.
    pub content_size: Option<u64>,
}

/// Query parameter naming the file to stream.
pub struct FileName {
    pub filename: String,
}

/// The head of an outbound download response: the status and every header
/// this library's responses carry, each as the exact value to send.
pub struct ResponseHead {
    /// HTTP status code.
    pub status: u16,
    /// Value of the `Content-Type` header.
    pub content_type: String,
    /// Value of the `Content-Disposition` header, when a file name is known.
    pub content_disposition: Option<String>,
    /// Value of the auxiliary `file_stem` header, when a file name is known.
    pub file_stem: Option<String>,
    /// Value of the `Content-Range` header, on partial-content responses.
    pub content_range: Option<String>,
    /// Value of the `Content-Length` header, when a size is known.
    pub content_length: Option<u64>,
}

/// Content type of every video response.
pub open spec fn mp4_content_type() -> Seq<char> {
    "video/mp4"@
}

/// The `Content-Disposition` value for an attachment named `name`.
pub open spec fn disposition_spec(name: Seq<char>) -> Seq<char> {
    "attachment; filename=\""@ + name + "\""@
}

/// The `Content-Range` value for the inclusive range `[start, end]` of a
/// file of `total_size` bytes.
pub open spec fn content_range_spec(start: u64, end: u64, total_size: u64) -> Seq<char> {
    "bytes "@ + dec_rep(start as nat) + "-"@ + dec_rep(end as nat) + "/"@ + dec_rep(
        total_size as nat,
    )
}

fn mp4_content_type_value() -> (r: String)
    ensures
        r@ == mp4_content_type(),
{
    String::from_str("video/mp4")
}

/// Build the `Content-Disposition` value for an attachment named `name`.
pub fn disposition_value(name: &str) -> (r: String)
    ensures
        r@ == disposition_spec(name@),
{
    let mut s = String::from_str("attachment; filename=\"");
    s.append(name);
    s.append("\"");
    proof {
        assert(s@ =~= disposition_spec(name@));
    }
    s
}

/// Build the `Content-Range` value for the inclusive range `[start, end]`
/// of a file of `total_size` bytes.
pub fn content_range_value(start: u64, end: u64, total_size: u64) -> (r: String)
    ensures
        r@ == content_range_spec(start, end, total_size),
{
    let mut s = String::from_str("bytes ");
    push_dec(&mut s, start);
    s.append("-");
    push_dec(&mut s, end);
    s.append("/");
    push_dec(&mut s, total_size);
    proof {
        assert(s@ =~= content_range_spec(start, end, total_size));
    }
    s
}

/// Index of the first `.` in `name`, or its length if there is none.
fn first_dot_index(name: &str) -> (k: usize)
    ensures
        k <= name@.len(),
        forall|j: int| 0 <= j < k ==> name@[j] != '.',
        k < name@.len() ==> name@[k as int] == '.',
{
    let n = name.unicode_len();
    let mut i: usize = 0;
    while i < n
        invariant
            0 <= i <= n,
            n == name@.len(),
            forall|j: int| 0 <= j < i ==> name@[j] != '.',
        decreases n - i,
    {
        if name.get_char(i) == '.' {
            return i;
        }
        i += 1;
    }
    n
}

/// The file name up to (not including) its first `.`; the whole name when
/// it has no `.`, and empty when it starts with one.
pub fn file_stem_of(name: &str) -> (r: String)
    ensures
        r@ == name@.take(r@.len() as int),
        forall|j: int| 0 <= j < r@.len() ==> name@[j] != '.',
        r@.len() == name@.len() || name@[r@.len() as int] == '.',
{
    let k = first_dot_index(name);
    let stem = name.substring_char(0, k);
    proof {
        assert(stem@ =~= name@.take(k as int));
    }
    stem.to_owned()
}

impl<S> FileStream<S> {
    /// A descriptor for a bare byte source, with no metadata yet.
    pub fn new(stream: S) -> (r: FileStream<S>)
        ensures
            r.stream == stream,
            r.file_name is None,
            r.content_size is None,
    {
        FileStream { stream, file_name: None, content_size: None }
    }

    /// The same descriptor with the file name set.
    pub fn file_name(self, file_name: String) -> (r: FileStream<S>)
        ensures
            r.stream == self.stream,
            r.file_name == Some(file_name),
            r.content_size == self.content_size,
    {
        FileStream { file_name: Some(file_name), ..self }
    }

    /// The same descriptor with the content size set.
    pub fn content_size(self, len: u64) -> (r: FileStream<S>)
        ensures
            r.stream == self.stream,
            r.file_name == self.file_name,
            r.content_size == Some(len),
    {
        FileStream { content_size: Some(len), ..self }
    }

    /// The head of the whole-file response for this descriptor, and the
    /// byte source to serve as its body.
    ///
    /// A known file name yields a `Content-Disposition` attachment header
    /// and the auxiliary `file_stem` header; a known size yields
    /// `Content-Length`.
    pub fn into_response_head(self) -> (r: (ResponseHead, S))
        ensures
            r.0.status == STATUS_OK,
            r.0.content_type@ == mp4_content_type(),
            r.0.content_range is None,
            r.0.content_length == self.content_size,
            r.1 == self.stream,
            self.file_name is None ==> r.0.content_disposition is None && r.0.file_stem is None,
            self.file_name matches Some(name) ==> (r.0.content_disposition matches Some(d)
                && d@ == disposition_spec(name@)),
            self.file_name matches Some(name) ==> (r.0.file_stem matches Some(st) && st@
                == name@.take(st@.len() as int) && (forall|j: int|
                0 <= j < st@.len() ==> name@[j] != '.') && (st@.len() == name@.len()
                || name@[st@.len() as int] == '.')),
    {
        let FileStream { stream, file_name, content_size } = self;
        match file_name {
            Some(name) => {
                let disposition = disposition_value(name.as_str());
                let stem = file_stem_of(name.as_str());
                (
                    ResponseHead {
                        status: STATUS_OK,
                        content_type: mp4_content_type_value(),
                        content_disposition: Some(disposition),
                        file_stem: Some(stem),
                        content_range: None,
                        content_length: content_size,
                    },
                    stream,
                )
            },
            None => (
                ResponseHead {
                    status: STATUS_OK,
                    content_type: mp4_content_type_value(),
                    content_disposition: None,
                    file_stem: None,
                    content_range: None,
                    content_length: content_size,
                },
                stream,
            ),
        }
    }

    /// The head of the partial-content response for bytes `[start, end]` of
    /// a file of `total_size` bytes, and the byte source to serve as its
    /// body (already positioned and bounded by the caller).
    ///
    /// `Content-Length` deliberately reports `total_size - start`, the
    /// bytes from `start` to the end of the file, rather than the sliced
    /// length `end - start + 1`: existing clients depend on that value, so
    /// it is kept as a compatibility requirement.
    pub fn into_range_response_head(self, start: u64, end: u64, total_size: u64) -> (r: (
        ResponseHead,
        S,
    ))
        requires
            start <= end < total_size,
        ensures
            r.0.status == STATUS_PARTIAL_CONTENT,
            r.0.content_type@ == mp4_content_type(),
            r.0.content_range matches Some(cr) && cr@ == content_range_spec(
                start,
                end,
                total_size,
            ),
            r.0.content_length == Some((total_size - start) as u64),
            r.0.content_disposition is None,
            r.0.file_stem is None,
            r.1 == self.stream,
    {
        let FileStream { stream, file_name: _, content_size: _ } = self;
        (
            ResponseHead {
                status: STATUS_PARTIAL_CONTENT,
                content_type: mp4_content_type_value(),
                content_disposition: None,
                file_stem: None,
                content_range: Some(content_range_value(start, end, total_size)),
                content_length: Some(total_size - start),
            },
            stream,
        )
    }
}

} // verus!
