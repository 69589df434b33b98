//! The bounded streaming download, modelled as a session that accepts one
//! event per transfer step and decides what may be written.
//!
//! The session does no I/O itself. A driver opens the HTTP transfer,
//! feeds the declared content length to [`DownloadSession::begin`], hands
//! every received chunk's length to [`DownloadSession::on_chunk`] before
//! writing the chunk to the temporary file, and renames the temporary
//! file over the destination only after [`DownloadSession::finish`]. One
//! session is one attempt: retrying is the coordinator's business, never
//! the downloader's.

use vstd::prelude::*;
use vstd::string::StringExecFns;
use crate::progress::DownloadProgress;
use crate::progress::compute_percent;
use crate::progress::percent_of;

verus! {

/// Why one download attempt failed.
#[derive(Debug)]
pub enum DownloadError {
    /// The transport failed before or while the body was read; carries
    /// the transport's own message, so the most specific error reaches
    /// the operator.
    RequestFailed(String),
    /// The remote host answered with a non-success HTTP status.
    HttpStatus(u16),
    /// The declared content length, or the bytes actually received, went
    /// over the caller's size limit.
    SizeLimitExceeded,
    /// The finished temporary file could not be renamed onto the
    /// destination; carries the filesystem's message.
    PublishFailed(String),
}

/// The sum of the chunk lengths in `s`.
pub open spec fn sum_of(s: Seq<u64>) -> int
    decreases s.len(),
{
    if s.len() == 0 {
        0
    } else {
        sum_of(s.drop_last()) + s.last()
    }
}

proof fn lemma_sum_push(s: Seq<u64>, x: u64)
    ensures
        sum_of(s.push(x)) == sum_of(s) + x,
{
    assert(s.push(x).drop_last() =~= s);
}

/// One download attempt in progress: how many bytes have been accepted
/// against which declared total and which hard size limit.
///
/// `chunks` is the (ghost) history of accepted chunk lengths; the session
/// accepts a chunk exactly when doing so keeps the running count within
/// `size_limit`, so a destination fed exactly the accepted chunks can
/// never exhaust the disk past that bound.
pub struct DownloadSession {
    /// The identifier put in every progress snapshot.
    pub item: String,
    /// The hard bound on bytes accepted over the whole attempt.
    pub size_limit: u64,
    /// The declared content length; 0 when the host declared none.
    pub total: u64,
    /// Bytes accepted so far.
    pub downloaded: u64,
    /// History of accepted chunk lengths.
    pub chunks: Ghost<Seq<u64>>,
}

impl DownloadSession {
    /// The session's invariant: the byte count never passes the limit
    /// and always equals the sum of the accepted chunks.
    pub open spec fn wf(&self) -> bool {
        &&& self.downloaded <= self.size_limit
        &&& self.downloaded == sum_of(self.chunks@)
    }

    /// Classifies the HTTP status of the response: any non-2xx status
    /// refuses the attempt before a body byte is read.
    pub fn check_http_status(status: u16) -> (r: Result<(), DownloadError>)
        ensures
            match r {
                Ok(()) => 200 <= status < 300,
                Err(e) => !(200 <= status < 300) && e == DownloadError::HttpStatus(status),
            },
    {
        if 200 <= status && status < 300 {
            Ok(())
        } else {
            Err(DownloadError::HttpStatus(status))
        }
    }

    /// Opens a session once the response headers are in. Fails with
    /// `SizeLimitExceeded` exactly when the declared content length is
    /// over `size_limit`: in that case the attempt dies before any chunk
    /// is read and nothing may be written anywhere.
    pub fn begin(item: String, size_limit: u64, declared_total: u64) -> (r: Result<
        DownloadSession,
        DownloadError,
    >)
        ensures
            match r {
                Ok(s) => {
                    &&& declared_total <= size_limit
                    &&& s.wf()
                    &&& s.item == item
                    &&& s.size_limit == size_limit
                    &&& s.total == declared_total
                    &&& s.downloaded == 0
                    &&& s.chunks@ == Seq::<u64>::empty()
                },
                Err(e) => declared_total > size_limit && e == DownloadError::SizeLimitExceeded,
            },
    {
        if declared_total > size_limit {
            Err(DownloadError::SizeLimitExceeded)
        } else {
            Ok(DownloadSession { item, size_limit, total: declared_total, downloaded: 0, chunks: Ghost(Seq::empty()) })
        }
    }

    /// Accounts for one received chunk of `len` bytes.
    ///
    /// Refused with `SizeLimitExceeded`, leaving the session unchanged,
    /// exactly when accepting it would push the byte count over the
    /// limit; the driver must then delete the temporary file and abort.
    /// Otherwise returns the progress snapshot to emit for the chunk:
    /// the running byte count, the declared total, and the percentage of
    /// `percent_of`.
    pub fn on_chunk(&mut self, len: u64) -> (r: Result<DownloadProgress, DownloadError>)
        requires
            old(self).wf(),
        ensures
            final(self).wf(),
            match r {
                Err(e) => {
                    &&& old(self).downloaded + len > old(self).size_limit
                    &&& e == DownloadError::SizeLimitExceeded
                    &&& *final(self) == *old(self)
                },
                Ok(ev) => {
                    &&& old(self).downloaded + len <= old(self).size_limit
                    &&& final(self).downloaded == old(self).downloaded + len
                    &&& final(self).chunks@ == old(self).chunks@.push(len)
                    &&& final(self).item == old(self).item
                    &&& final(self).size_limit == old(self).size_limit
                    &&& final(self).total == old(self).total
                    &&& ev.item@ == old(self).item@
                    &&& ev.downloaded == final(self).downloaded
                    &&& ev.total == old(self).total
                    &&& ev.progress == percent_of(final(self).downloaded, old(self).total)
                    &&& ev.status@ == "Downloading..."@
                },
            },
    {
        if len > self.size_limit - self.downloaded {
            return Err(DownloadError::SizeLimitExceeded);
        }
        self.downloaded = self.downloaded + len;
        proof {
            lemma_sum_push(self.chunks@, len);
        }
        self.chunks = Ghost(self.chunks@.push(len));
        let progress = compute_percent(self.downloaded, self.total);
        Ok(DownloadProgress {
            item: self.item.clone(),
            progress,
            downloaded: self.downloaded,
            total: self.total,
            status: String::from_str("Downloading..."),
        })
    }

    /// Closes a fully consumed stream and reports the byte count the
    /// destination file must have once the temporary file is renamed
    /// into place: exactly the sum of every accepted chunk, which is
    /// also the byte count carried by the last emitted snapshot.
    pub fn finish(self) -> (r: u64)
        requires
            self.wf(),
        ensures
            r == self.downloaded,
            r == sum_of(self.chunks@),
            r <= self.size_limit,
    {
        self.downloaded
    }
}

/// Every byte a session ever accepts is accounted for: the running count
/// equals the sum of the accepted chunk lengths and never passes the
/// size limit. A destination written from exactly the accepted chunks
/// therefore ends at the byte count of the final progress snapshot.
pub proof fn lemma_download_bytes_accounted(s: DownloadSession)
    requires
        s.wf(),
    ensures
        s.downloaded == sum_of(s.chunks@),
        s.downloaded <= s.size_limit,
{
}

} // verus!
