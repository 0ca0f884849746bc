//! Uploads to OneDrive through the Microsoft Graph API: a single request for
//! files under 4 MB, an upload session in 10 MB chunks otherwise.
//!
//! The requests are the caller's part; here stand where files go, which
//! upload is used, the chunks and their `Content-Range`, which answers are
//! accepted and the errors.

use vstd::prelude::*;

use crate::cleanup_bot::cloud_storage::{
    build_relative_remote_path, dated_path, folder_date, remote_file_name, CloudStorageError,
};
use crate::text::{
    decimal, lemma_decimal_digits, lemma_parse_decimal_roundtrip, parse_unsigned, trim_end_char,
    trim_end_matches_char, u64_to_decimal,
};

verus! {

/// The Microsoft Graph endpoint.
pub open spec fn graph_api() -> Seq<char> {
    "https://graph.microsoft.com/v1.0"@
}

/// Files smaller than this go in a single request.
pub const SIMPLE_UPLOAD_LIMIT: u64 = 4_194_304;

/// Chunk size of resumable uploads.
pub const CHUNK_SIZE: usize = 10_485_760;

/// How a file is uploaded.
pub enum UploadMode {
    Simple,
    Resumable,
}

/// A OneDrive backend uploading under `upload_folder`.
pub struct OneDriveClient {
    pub upload_folder: String,
}

/// The `Content-Range` of the bytes `start` to `end` (inclusive) of `total`.
pub open spec fn content_range_text(start: nat, end: nat, total: nat) -> Seq<char> {
    "bytes "@ + decimal(start) + "-"@ + decimal(end) + "/"@ + decimal(total)
}

/// Whether `ranges` cuts `total` bytes into consecutive chunks of
/// `CHUNK_SIZE` bytes, the last one possibly shorter; each range is
/// `(start, end)` with `end` inclusive.
pub open spec fn chunk_ranges_of(ranges: Seq<(usize, usize)>, total: nat) -> bool {
    &&& ranges.len() == (total + CHUNK_SIZE - 1) / CHUNK_SIZE as int
    &&& forall|k: int|
        0 <= k < ranges.len() ==> #[trigger] ranges[k].0 == k * CHUNK_SIZE && ranges[k].1 == (
        if ranges[k].0 + CHUNK_SIZE <= total {
            ranges[k].0 + CHUNK_SIZE
        } else {
            total as int
        }) - 1
}

/// A `Content-Range` header names the byte range and the total it was built
/// from: after `bytes ` come the digits of `start`, `-`, the digits of `end`
/// (the last byte of the chunk itself), `/` and the digits of `total`.
pub proof fn lemma_content_range_reads_back(start: nat, end: nat, total: nat)
    requires
        start <= u64::MAX,
        end <= u64::MAX,
        total <= u64::MAX,
    ensures
        exists|i: int, j: int|
            6 < i < j < content_range_text(start, end, total).len() && #[trigger] content_range_text(
                start,
                end,
                total,
            )[i] == '-' && #[trigger] content_range_text(start, end, total)[j] == '/'
                && content_range_text(start, end, total).subrange(0, 6) == "bytes "@
                && parse_unsigned(content_range_text(start, end, total).subrange(6, i), u64::MAX as nat)
                == Some(start) && parse_unsigned(
                content_range_text(start, end, total).subrange(i + 1, j),
                u64::MAX as nat,
            ) == Some(end) && parse_unsigned(
                content_range_text(start, end, total).subrange(
                    j + 1,
                    content_range_text(start, end, total).len() as int,
                ),
                u64::MAX as nat,
            ) == Some(total),
{
    reveal_strlit("bytes ");
    reveal_strlit("-");
    reveal_strlit("/");
    lemma_decimal_digits(start);
    lemma_decimal_digits(end);
    lemma_decimal_digits(total);
    lemma_parse_decimal_roundtrip(start, u64::MAX as nat);
    lemma_parse_decimal_roundtrip(end, u64::MAX as nat);
    lemma_parse_decimal_roundtrip(total, u64::MAX as nat);
    let a = decimal(start);
    let b = decimal(end);
    let c = decimal(total);
    let t = content_range_text(start, end, total);
    let i: int = 6 + a.len() as int;
    let j: int = i + 1 + b.len();
    assert(t =~= "bytes "@ + a + "-"@ + b + "/"@ + c);
    assert(t[i] == '-');
    assert(t[j] == '/');
    assert(t.subrange(0, 6) =~= "bytes "@);
    assert(t.subrange(6, i) =~= a);
    assert(t.subrange(i + 1, j) =~= b);
    assert(t.subrange(j + 1, t.len() as int) =~= c);
}

/// The chunks of a resumable upload cover the file exactly, in order: each
/// range `(start, end)` holds `end - start + 1` bytes, between 1 and
/// `CHUNK_SIZE`; the first starts at byte 0, each next one right after the
/// previous one ends, and the last ends at the file's last byte.
pub proof fn lemma_chunk_ranges_cover(ranges: Seq<(usize, usize)>, total: nat)
    requires
        chunk_ranges_of(ranges, total),
    ensures
        forall|k: int|
            0 <= k < ranges.len() ==> 1 <= #[trigger] ranges[k].1 - ranges[k].0 + 1 <= CHUNK_SIZE,
        ranges.len() > 0 ==> ranges[0].0 == 0 && ranges.last().1 == total - 1,
        forall|k: int|
            0 <= k < ranges.len() - 1 ==> #[trigger] ranges[k + 1].0 == ranges[k].1 + 1,
        total > 0 <==> ranges.len() > 0,
{
    assert forall|k: int| 0 <= k < ranges.len() implies 1 <= #[trigger] ranges[k].1 - ranges[k].0
        + 1 <= CHUNK_SIZE by {
        assert(k * CHUNK_SIZE < total) by (nonlinear_arith)
            requires
                0 <= k < (total + CHUNK_SIZE - 1) / CHUNK_SIZE as int,
                CHUNK_SIZE == 10_485_760,
        ;
    }
    assert forall|k: int| 0 <= k < ranges.len() - 1 implies #[trigger] ranges[k + 1].0 == ranges[k].1
        + 1 by {
        assert(ranges[k].0 == k * CHUNK_SIZE);
        assert(ranges[k + 1].0 == (k + 1) * CHUNK_SIZE);
        assert((k + 1) * CHUNK_SIZE < total) by (nonlinear_arith)
            requires
                0 <= k + 1 < (total + CHUNK_SIZE - 1) / CHUNK_SIZE as int,
                CHUNK_SIZE == 10_485_760,
        ;
        assert((k + 1) * CHUNK_SIZE == k * CHUNK_SIZE + CHUNK_SIZE) by (nonlinear_arith);
    }
    if ranges.len() > 0 {
        let n = ranges.len() - 1;
        assert(ranges[n].0 == n * CHUNK_SIZE);
        assert(n * CHUNK_SIZE + CHUNK_SIZE >= total) by (nonlinear_arith)
            requires
                n == (total + CHUNK_SIZE - 1) / CHUNK_SIZE as int - 1,
                CHUNK_SIZE == 10_485_760,
        ;
        assert(ranges[0].0 == 0 * CHUNK_SIZE);
    }
    if total > 0 {
        assert((total + CHUNK_SIZE - 1) / CHUNK_SIZE as int >= 1) by (nonlinear_arith)
            requires
                total > 0,
                CHUNK_SIZE == 10_485_760,
        ;
    } else {
        assert((total + CHUNK_SIZE - 1) / CHUNK_SIZE as int == 0);
    }
}

impl OneDriveClient {
    /// A backend uploading under `upload_folder`.
    pub fn new(upload_folder: String) -> (r: Self)
        ensures
            r.upload_folder == upload_folder,
    {
        OneDriveClient { upload_folder }
    }

    /// The remote path of the local file `local_path`, organized by date:
    /// the upload folder without trailing slashes, then `YYYY/MM/DD/name`.
    pub fn build_remote_path(&self, local_path: &str) -> (s: String)
        ensures
            match folder_date(local_path@) {
                Some(d) => s@ == trim_end_char(self.upload_folder@, '/') + "/"@ + dated_path(
                    remote_file_name(local_path@),
                    d,
                ),
                None => exists|d: (i32, u32, u32)|
                    s@ == trim_end_char(self.upload_folder@, '/') + "/"@ + #[trigger] dated_path(
                        remote_file_name(local_path@),
                        d,
                    ),
            },
    {
        let mut s = String::from_str(trim_end_matches_char(self.upload_folder.as_str(), '/'));
        s.append("/");
        let relative = build_relative_remote_path(local_path);
        s.append(relative.as_str());
        s
    }
}

/// Simple upload for files under 4 MB, an upload session otherwise.
pub fn upload_mode(file_size: u64) -> (m: UploadMode)
    ensures
        m is Simple <==> file_size < SIMPLE_UPLOAD_LIMIT,
{
    if file_size < SIMPLE_UPLOAD_LIMIT {
        UploadMode::Simple
    } else {
        UploadMode::Resumable
    }
}

/// The address a simple upload puts the file to.
pub fn simple_upload_url(remote_path: &str) -> (s: String)
    ensures
        s@ == graph_api() + "/me/drive/root:"@ + remote_path@ + ":/content"@,
{
    let mut s = String::from_str("https://graph.microsoft.com/v1.0");
    s.append("/me/drive/root:");
    s.append(remote_path);
    s.append(":/content");
    s
}

/// The address that creates an upload session.
pub fn upload_session_url(remote_path: &str) -> (s: String)
    ensures
        s@ == graph_api() + "/me/drive/root:"@ + remote_path@ + ":/createUploadSession"@,
{
    let mut s = String::from_str("https://graph.microsoft.com/v1.0");
    s.append("/me/drive/root:");
    s.append(remote_path);
    s.append(":/createUploadSession");
    s
}

/// The byte ranges of the chunks of a `total`-byte file.
pub fn chunk_ranges(total: usize) -> (r: Vec<(usize, usize)>)
    ensures
        chunk_ranges_of(r@, total as nat),
{
    let mut r: Vec<(usize, usize)> = Vec::new();
    let mut start: usize = 0;
    assert(total == 0 ==> (total + CHUNK_SIZE - 1) / CHUNK_SIZE as int == 0);
    while start < total
        invariant
            start <= total,
            start < total ==> start == r@.len() * CHUNK_SIZE,
            start == total ==> r@.len() == (total + CHUNK_SIZE - 1) / CHUNK_SIZE as int,
            forall|k: int|
                0 <= k < r@.len() ==> #[trigger] r@[k].0 == k * CHUNK_SIZE && r@[k].1 == (
                if r@[k].0 + CHUNK_SIZE <= total {
                    r@[k].0 + CHUNK_SIZE
                } else {
                    total as int
                }) - 1,
        decreases total - start,
    {
        let end = if total - start >= CHUNK_SIZE {
            start + CHUNK_SIZE
        } else {
            total
        };
        let ghost k = r@.len();
        r.push((start, end - 1));
        assert(end == total ==> r@.len() == (total + CHUNK_SIZE - 1) / CHUNK_SIZE as int)
            by (nonlinear_arith)
            requires
                end == total ==> start < total <= start + CHUNK_SIZE,
                start == k * CHUNK_SIZE,
                r@.len() == k + 1,
        ;
        start = end;
    }
    r
}

/// The `Content-Range` header of the bytes `start` to `end` of `total`.
pub fn content_range(start: usize, end: usize, total: usize) -> (s: String)
    ensures
        s@ == content_range_text(start as nat, end as nat, total as nat),
{
    let mut s = String::from_str("bytes ");
    s.append(u64_to_decimal(start as u64).as_str());
    s.append("-");
    s.append(u64_to_decimal(end as u64).as_str());
    s.append("/");
    s.append(u64_to_decimal(total as u64).as_str());
    s
}

/// Whether an HTTP status is a success (2xx).
pub open spec fn is_success(status: u16) -> bool {
    200 <= status <= 299
}

/// Whether the answer to a chunk is accepted: a success, or `202 Accepted`.
pub fn chunk_accepted(status: u16) -> (b: bool)
    ensures
        b == (is_success(status) || status == 202),
{
    (200 <= status && status <= 299) || status == 202
}

/// The chunks of a resumable upload and how far it went: chunks are sent in
/// order, and the first refused chunk ends the upload.
pub struct ChunkedUpload {
    pub total: usize,
    pub ranges: Vec<(usize, usize)>,
    /// Chunks accepted so far.
    pub next: usize,
    /// Whether a chunk was refused.
    pub failed: bool,
}

impl ChunkedUpload {
    /// The upload of a `total`-byte file, nothing sent yet.
    pub fn new(total: usize) -> (u: Self)
        ensures
            u.total == total,
            chunk_ranges_of(u.ranges@, total as nat),
            u.next == 0,
            !u.failed,
    {
        ChunkedUpload { total, ranges: chunk_ranges(total), next: 0, failed: false }
    }

    /// The byte range of the chunk to send next, or `None` once every chunk
    /// was accepted or one was refused.
    pub fn next_chunk(&self) -> (r: Option<(usize, usize)>)
        ensures
            r == (if !self.failed && self.next < self.ranges@.len() {
                Some(self.ranges@[self.next as int])
            } else {
                None
            }),
    {
        if !self.failed && self.next < self.ranges.len() {
            Some(self.ranges[self.next])
        } else {
            None
        }
    }

    /// Takes in the HTTP status answering the chunk just sent; tells whether
    /// it was accepted.
    pub fn on_answer(&mut self, status: u16) -> (accepted: bool)
        requires
            !old(self).failed,
            old(self).next < old(self).ranges@.len(),
        ensures
            accepted == (is_success(status) || status == 202),
            final(self).total == old(self).total,
            final(self).ranges == old(self).ranges,
            final(self).next == (if accepted {
                old(self).next + 1
            } else {
                old(self).next as int
            }),
            final(self).failed == !accepted,
    {
        let accepted = chunk_accepted(status);
        let count = self.ranges.len();
        if accepted {
            assert(self.next < count);
            self.next = self.next + 1;
        } else {
            self.failed = true;
        }
        accepted
    }
}

fn status_error(prefix: &str, status: &str, body: &str) -> (e: CloudStorageError)
    ensures
        e matches CloudStorageError::Upload(m) && m@ == prefix@ + status@ + ": "@ + body@,
{
    let mut m = String::from_str(prefix);
    m.append(status);
    m.append(": ");
    m.append(body);
    CloudStorageError::Upload(m)
}

/// The error of a refused simple upload; `status` is the status as
/// displayed (`404 Not Found`), `body` the answer's text.
pub fn simple_upload_error(status: &str, body: &str) -> (e: CloudStorageError)
    ensures
        e matches CloudStorageError::Upload(m) && m@ == "Upload failed with status "@ + status@
            + ": "@ + body@,
{
    status_error("Upload failed with status ", status, body)
}

/// The error of a refused upload session.
pub fn upload_session_error(status: &str, body: &str) -> (e: CloudStorageError)
    ensures
        e matches CloudStorageError::Upload(m) && m@ == "Failed to create upload session: "@
            + status@ + ": "@ + body@,
{
    status_error("Failed to create upload session: ", status, body)
}

/// The error of a refused chunk.
pub fn chunk_upload_error(status: &str, body: &str) -> (e: CloudStorageError)
    ensures
        e matches CloudStorageError::Upload(m) && m@ == "Chunk upload failed: "@ + status@ + ": "@
            + body@,
{
    status_error("Chunk upload failed: ", status, body)
}

} // verus!
