use vstd::prelude::*;

use std::io::Cursor;
use vstd::string::StringSliceAdditionalSpecFns;

use crate::error::DragonflyError;

verus! {

#[verifier::external_type_specification]
#[verifier::external_body]
#[verifier::reject_recursive_types(T)]
pub struct ExCursor<T>(Cursor<T>);

#[verifier::external_type_specification]
#[verifier::external_body]
#[verifier::reject_recursive_types(R)]
pub struct ExZipArchive<R>(zip::ZipArchive<R>);

#[verifier::external_type_specification]
#[verifier::external_body]
pub struct ExZipError(zip::result::ZipError);

#[verifier::external_type_specification]
#[verifier::external_body]
pub struct ExIoError(std::io::Error);

/// Size of the pieces in which a stream is read into a bounded buffer.
pub const CHUNK_SIZE: usize = 65536;

/// The first `max` bytes that gzip inflation of `data` yields, or `None`
/// when the stream turns out invalid before `max` bytes have been yielded.
pub uninterp spec fn gunzip_upto(data: Seq<u8>, max: nat) -> Option<Seq<u8>>;

/// Relies on flate2::read::GzDecoder read through std's `take(max)` and
/// `read_to_end`: inflation stops after `max` bytes, so no more are ever
/// held, and a decoding error before that is returned.
#[verifier::external_body]
fn inflate_up_to(data: Vec<u8>, max: u64) -> (r: Result<Vec<u8>, std::io::Error>)
    ensures
        r is Ok <==> gunzip_upto(data@, max as nat) is Some,
        r is Ok ==> r->Ok_0@ == gunzip_upto(data@, max as nat)->Some_0,
        r is Ok ==> r->Ok_0@.len() <= max,
{
    let mut out = Vec::new();
    let mut reader = std::io::Read::take(flate2::read::GzDecoder::new(Cursor::new(data)), max);
    match std::io::Read::read_to_end(&mut reader, &mut out) {
        Ok(_) => Ok(out),
        Err(e) => Err(e),
    }
}

/// Relies on the Display impl of zip::result::ZipError for a readable detail.
#[verifier::external_body]
fn zip_error_text(e: &zip::result::ZipError) -> (r: String) {
    e.to_string()
}

/// Relies on the Display impl of std::io::Error for a readable detail.
#[verifier::external_body]
fn io_error_text(e: &std::io::Error) -> (r: String) {
    e.to_string()
}

/// Whether the zip reader accepts `data` as an archive (it finds and parses
/// the central directory).
pub uninterp spec fn zip_readable(data: Seq<u8>) -> bool;

/// Relies on zip::ZipArchive::new, which reads the central directory of the
/// in-memory bytes; its outcome depends on the bytes alone.
#[verifier::external_body]
fn zip_archive(data: Vec<u8>) -> (r: Result<zip::ZipArchive<Cursor<Vec<u8>>>, zip::result::ZipError>)
    ensures
        r is Ok <==> zip_readable(data@),
{
    zip::ZipArchive::new(Cursor::new(data))
}

/// The bytes of an artifact received so far, never more than `limit`.
pub struct BoundedDownload {
    pub url: String,
    pub data: Vec<u8>,
    pub limit: usize,
}

impl BoundedDownload {
    pub open spec fn wf(&self) -> bool {
        self.data@.len() <= self.limit
    }

    /// An empty download from `url` bounded by `limit` bytes.
    pub fn new(url: String, limit: usize) -> (r: BoundedDownload)
        ensures
            r.wf(),
            r.url == url,
            r.limit == limit,
            r.data@ == Seq::<u8>::empty(),
    {
        BoundedDownload { url, data: Vec::new(), limit }
    }

    /// Appends the next chunk of the stream when the total stays within the
    /// bound; otherwise keeps nothing of it and reports the URL as too large.
    pub fn push_chunk(&mut self, chunk: &[u8]) -> (r: Result<(), DragonflyError>)
        requires
            old(self).wf(),
        ensures
            final(self).wf(),
            final(self).url == old(self).url,
            final(self).limit == old(self).limit,
            r is Ok <==> old(self).data@.len() + chunk@.len() <= old(self).limit,
            r is Ok ==> final(self).data@ == old(self).data@ + chunk@,
            r is Err ==> final(self).data@ == old(self).data@ && r == Err::<(), DragonflyError>(
                DragonflyError::DownloadTooLarge(old(self).url),
            ),
    {
        if chunk.len() > self.limit - self.data.len() {
            return Err(DragonflyError::DownloadTooLarge(self.url.clone()));
        }
        let ghost start = self.data@;
        let ghost s0 = *self;
        let mut i: usize = 0;
        while i < chunk.len()
            invariant
                i <= chunk@.len(),
                self.url == s0.url,
                self.limit == s0.limit,
                start.len() + chunk@.len() <= self.limit,
                self.data@ == start + chunk@.take(i as int),
            decreases chunk@.len() - i,
        {
            self.data.push(chunk[i]);
            assert(chunk@.take(i + 1) =~= chunk@.take(i as int).push(chunk@[i as int]));
            i = i + 1;
        }
        assert(chunk@.take(chunk@.len() as int) =~= chunk@);
        Ok(())
    }

    /// The downloaded bytes, at most `limit` of them.
    pub fn into_bytes(self) -> (r: Vec<u8>)
        requires
            self.wf(),
        ensures
            r@ == self.data@,
            r@.len() <= self.limit,
    {
        self.data
    }

    /// The downloaded bytes as a zip archive; fails with `InvalidArchive`
    /// carrying the URL when the bytes are not a readable zip file.
    pub fn into_zipfile(self) -> (r: Result<zip::ZipArchive<Cursor<Vec<u8>>>, DragonflyError>)
        requires
            self.wf(),
        ensures
            r is Ok <==> zip_readable(self.data@),
            r is Err ==> r->Err_0 is InvalidArchive && r->Err_0->InvalidArchive_0 == self.url,
    {
        let url = self.url;
        match zip_archive(self.data) {
            Ok(z) => Ok(z),
            Err(e) => Err(DragonflyError::InvalidArchive(url, zip_error_text(&e))),
        }
    }
}

/// The container format of a distribution artifact.
#[derive(Debug, Clone, Copy, PartialEq, Eq)]
pub enum ArchiveKind {
    /// A gzip-compressed tarball (source distribution).
    Tarball,
    /// A zip file (wheel or zip source distribution).
    Zip,
}

/// `s` ends with the bytes of `suffix`.
pub open spec fn ends_with(s: Seq<u8>, suffix: Seq<u8>) -> bool {
    suffix.len() <= s.len() && s.subrange(s.len() - suffix.len(), s.len() as int) == suffix
}

/// The bytes of ".zip".
pub open spec fn zip_suffix() -> Seq<u8> {
    seq![46u8, 122u8, 105u8, 112u8]
}

/// The bytes of ".whl".
pub open spec fn wheel_suffix() -> Seq<u8> {
    seq![46u8, 119u8, 104u8, 108u8]
}

/// Whether `s` ends with `suffix`.
fn bytes_end_with(s: &[u8], suffix: &[u8]) -> (r: bool)
    ensures
        r == ends_with(s@, suffix@),
{
    if suffix.len() > s.len() {
        return false;
    }
    let start = s.len() - suffix.len();
    let mut i: usize = 0;
    while i < suffix.len()
        invariant
            start + suffix@.len() == s@.len(),
            s@.len() <= usize::MAX,
            i <= suffix@.len(),
            forall|j: int| 0 <= j < i ==> s@[start + j] == suffix@[j],
        decreases suffix@.len() - i,
    {
        if s[start + i] != suffix[i] {
            assert(s@.subrange(start as int, s@.len() as int)[i as int] != suffix@[i as int]);
            return false;
        }
        i = i + 1;
    }
    assert(s@.subrange(start as int, s@.len() as int) =~= suffix@);
    true
}

/// The format of the artifact behind `url`: zip for URLs ending in ".zip"
/// or ".whl", a gzip-compressed tarball otherwise.
pub fn archive_kind(url: &str) -> (r: ArchiveKind)
    ensures
        r == (if ends_with(url.spec_bytes(), zip_suffix()) || ends_with(url.spec_bytes(), wheel_suffix()) {
            ArchiveKind::Zip
        } else {
            ArchiveKind::Tarball
        }),
{
    let bytes = url.as_bytes();
    let zip: [u8; 4] = [46u8, 122u8, 105u8, 112u8];
    let wheel: [u8; 4] = [46u8, 119u8, 104u8, 108u8];
    assert(zip@ =~= zip_suffix());
    assert(wheel@ =~= wheel_suffix());
    if bytes_end_with(bytes, zip.as_slice()) || bytes_end_with(bytes, wheel.as_slice()) {
        ArchiveKind::Zip
    } else {
        ArchiveKind::Tarball
    }
}

/// Inflates a gzip-compressed artifact from `url`, never holding more than
/// `limit + 1` inflated bytes: fails with `DownloadTooLarge` when inflation
/// would pass the bound, and with `InvalidArchive` when the bytes are not a
/// valid gzip stream within it.
pub fn gunzip_bounded(url: String, compressed: Vec<u8>, limit: usize) -> (r: Result<Vec<u8>, DragonflyError>)
    requires
        limit < usize::MAX,
    ensures
        gunzip_upto(compressed@, (limit + 1) as nat) is None ==> r is Err && r->Err_0 is InvalidArchive
            && r->Err_0->InvalidArchive_0 == url,
        gunzip_upto(compressed@, (limit + 1) as nat) is Some && gunzip_upto(compressed@, (limit + 1) as nat)->Some_0.len()
            > limit ==> r == Err::<Vec<u8>, DragonflyError>(DragonflyError::DownloadTooLarge(url)),
        gunzip_upto(compressed@, (limit + 1) as nat) is Some && gunzip_upto(compressed@, (limit + 1) as nat)->Some_0.len()
            <= limit ==> r is Ok && r->Ok_0@ == gunzip_upto(compressed@, (limit + 1) as nat)->Some_0,
{
    match inflate_up_to(compressed, (limit + 1) as u64) {
        Err(e) => Err(DragonflyError::InvalidArchive(url, io_error_text(&e))),
        Ok(inflated) => {
            if inflated.len() > limit {
                Err(DragonflyError::DownloadTooLarge(url))
            } else {
                Ok(inflated)
            }
        },
    }
}

} // verus!
