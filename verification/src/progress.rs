//! Progress snapshots emitted while an asset is acquired.
//!
//! Two kinds of snapshot share this type: fine-grained byte-count events
//! emitted after every chunk of a streaming download, and coarse milestone
//! events emitted at pipeline stage transitions. A snapshot is transient:
//! it is handed to an observer and never persisted.

use vstd::prelude::*;
use vstd::string::StringExecFns;

verus! {

/// One progress snapshot for the item named `item`.
///
/// `total == 0` means the remote host declared no content length; the
/// percentage is then reported as `0`, which is a valid state and not an
/// error. `progress` always lies between 0 and 100.
pub struct DownloadProgress {
    pub item: String,
    pub progress: u32,
    pub downloaded: u64,
    pub total: u64,
    pub status: String,
}

/// The percentage reported after `downloaded` of `total` bytes:
/// `floor(downloaded * 100 / total)` when the total is known, clamped to
/// 100 (a host may send more bytes than it declared), and 0 when the
/// total is unknown.
pub open spec fn percent_of(downloaded: u64, total: u64) -> u32 {
    if total == 0 {
        0u32
    } else if downloaded * 100 / (total as int) >= 100 {
        100u32
    } else {
        (downloaded * 100 / (total as int)) as u32
    }
}

/// A coarse milestone snapshot for a stage transition of `item`: no byte
/// counts, just the phrase and the percentage.
pub fn milestone(item: &String, progress: u32, status: &str) -> (ev: DownloadProgress)
    ensures
        ev.item@ == item@,
        ev.progress == progress,
        ev.downloaded == 0,
        ev.total == 0,
        ev.status@ == status@,
{
    DownloadProgress {
        item: item.clone(),
        progress,
        downloaded: 0,
        total: 0,
        status: String::from_str(status),
    }
}

/// Computes `percent_of` without overflow.
pub fn compute_percent(downloaded: u64, total: u64) -> (p: u32)
    ensures
        p == percent_of(downloaded, total),
        p <= 100,
{
    if total == 0 {
        0
    } else {
        let wide: u128 = (downloaded as u128) * 100 / (total as u128);
        if wide >= 100 {
            100
        } else {
            wide as u32
        }
    }
}

} // verus!
