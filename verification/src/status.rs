//! The shared status record of a download session: total size, bytes
//! downloaded so far, start/finished flags, a write-once error slot and the
//! throughput counters.
//!
//! One process-wide copy of this record is read by every chunk worker and by
//! external callers.  The field discipline is single-writer: `size` and `url`
//! are fixed at construction, `down_size` and `byte_sec_total` grow as chunk
//! workers report bytes, `is_finish` and `error` are set by the supervising
//! task, and `is_start` is toggled by the caller through suspend/restart.

use vstd::prelude::*;

verus! {

use crate::error::DownloadError;
use vstd::arithmetic::div_mod::lemma_div_is_ordered;
use vstd::arithmetic::div_mod::lemma_div_pos_is_pos;
use vstd::arithmetic::div_mod::lemma_fundamental_div_mod;
use vstd::arithmetic::div_mod::lemma_fundamental_div_mod_converse_div;

/// Percent complete, in hundredths of a percent: the value of
/// `down / max(size, 1) * 100`, rounded half-up to two decimal places and
/// then scaled by 100 so that `100.00%` is `10000`.
pub open spec fn spec_percent_hundredths(down: int, size: int) -> int {
    let d = if size >= 1 {
        size
    } else {
        1
    };
    (20000 * down + d) / (2 * d)
}

/// Rounding characterization of [`spec_percent_hundredths`]: it is the
/// integer nearest to `down * 10000 / max(size, 1)` (ties rounded up), and
/// when no more bytes than `size` have been counted it lies in
/// `[0, 10000]` — that is, between `0.00%` and `100.00%`.
pub proof fn lemma_percent_hundredths_bounds(down: int, size: int)
    requires
        0 <= down <= size || size == 0 && down == 0,
    ensures
        0 <= spec_percent_hundredths(down, size) <= 10000,
        ({
            let d = if size >= 1 {
                size
            } else {
                1
            };
            let r = spec_percent_hundredths(down, size);
            2 * d * r <= 20000 * down + d < 2 * d * r + 2 * d
        }),
{
    let d = if size >= 1 {
        size
    } else {
        1
    };
    let x = 20000 * down + d;
    let r = x / (2 * d);
    lemma_fundamental_div_mod(x, 2 * d);
    vstd::arithmetic::div_mod::lemma_remainder_lower(x, 2 * d);
    vstd::arithmetic::div_mod::lemma_remainder_upper(x, 2 * d);
    assert(x <= 20001 * d) by (nonlinear_arith)
        requires
            down <= d,
            x == 20000 * down + d,
            d >= 1,
    ;
    assert(10000 * (2 * d) + d == 20001 * d) by (nonlinear_arith);
    lemma_fundamental_div_mod_converse_div(20001 * d, 2 * d, 10000, d);
    lemma_div_is_ordered(x, 20001 * d, 2 * d);
    lemma_div_pos_is_pos(x, 2 * d);
}

/// Computes percent complete in hundredths of a percent, `0` through
/// `10000`, from the bytes downloaded so far and the total size.
pub fn percent_hundredths(down_size: u64, size: u64) -> (r: u64)
    requires
        down_size <= size || size == 0 && down_size == 0,
    ensures
        r == spec_percent_hundredths(down_size as int, size as int),
        r <= 10000,
{
    proof {
        lemma_percent_hundredths_bounds(down_size as int, size as int);
    }
    let d: u128 = if size >= 1 {
        size as u128
    } else {
        1
    };
    let num: u128 = 20000u128 * (down_size as u128) + d;
    (num / (2 * d)) as u64
}

/// The concurrency-shared status record of one download session.
pub struct DownloadInner {
    /// The URL being downloaded; fixed at construction.
    pub url: String,
    /// Total remote size in bytes; resolved once before any chunk work.
    pub size: u64,
    /// Bytes downloaded so far; grows as chunk workers report, and is
    /// force-set to `size` when the session reconciles.
    pub down_size: u64,
    /// Cooperative pause flag, toggled by the caller.
    pub is_start: bool,
    /// Terminal flag, set exactly once when the session reconciles.
    pub is_finish: bool,
    /// Write-once error slot: the first error recorded wins.
    pub error: Option<DownloadError>,
    /// Bytes-per-second figure from the last one-second sample.
    pub byte_sec: u64,
    /// Bytes accumulated since the last sample.
    pub byte_sec_total: u64,
}

impl DownloadInner {
    /// The record never counts more downloaded bytes than the file holds,
    /// and the unsampled throughput counter never exceeds the total count.
    pub open spec fn wf(&self) -> bool {
        &&& self.down_size <= self.size
        &&& self.byte_sec_total <= self.down_size
    }

    /// A fresh status record for a transfer of `size` bytes: no progress,
    /// not started, not finished, no error.
    pub fn new(url: String, size: u64) -> (r: DownloadInner)
        ensures
            r.url == url,
            r.size == size,
            r.down_size == 0,
            !r.is_start,
            !r.is_finish,
            r.error is None,
            r.byte_sec == 0,
            r.byte_sec_total == 0,
            r.wf(),
    {
        DownloadInner {
            url,
            size,
            down_size: 0,
            is_start: false,
            is_finish: false,
            error: None,
            byte_sec: 0,
            byte_sec_total: 0,
        }
    }

    /// The URL this session downloads.
    pub fn url(&self) -> (r: &str)
        ensures
            r@ == self.url@,
    {
        self.url.as_str()
    }

    /// Whether the session is currently allowed to make progress.
    pub fn is_start(&self) -> (r: bool)
        ensures
            r == self.is_start,
    {
        self.is_start
    }

    /// Whether the session has reached its terminal state.
    pub fn is_finish(&self) -> (r: bool)
        ensures
            r == self.is_finish,
    {
        self.is_finish
    }

    /// Whether any worker or the finalization recorded an error.
    pub fn is_error(&self) -> (r: bool)
        ensures
            r == (self.error is Some),
    {
        match &self.error {
            Some(_) => true,
            None => false,
        }
    }

    /// The first error recorded, if any.
    pub fn get_error(&self) -> (r: Option<&DownloadError>)
        ensures
            match r {
                Some(e) => self.error matches Some(inner) && *e == inner,
                None => self.error is None,
            },
    {
        self.error.as_ref()
    }

    /// Percent complete in hundredths of a percent (`10000` is `100.00%`).
    pub fn get_percent_complete(&self) -> (r: u64)
        requires
            self.wf(),
        ensures
            r == spec_percent_hundredths(self.down_size as int, self.size as int),
            r <= 10000,
    {
        percent_hundredths(self.down_size, self.size)
    }

    /// Current throughput in bytes per second, as of the last sample.
    pub fn get_byte_sec(&self) -> (r: u64)
        ensures
            r == self.byte_sec,
    {
        self.byte_sec
    }

    /// Bytes downloaded so far.
    pub fn get_down_size(&self) -> (r: u64)
        ensures
            r == self.down_size,
    {
        self.down_size
    }

    /// Credits `len` freshly written bytes to the progress counter and to
    /// the throughput accumulator.
    pub fn add_down_size(&mut self, len: u64)
        requires
            old(self).wf(),
            old(self).down_size + len <= old(self).size,
        ensures
            *final(self) == (DownloadInner {
                down_size: (old(self).down_size + len) as u64,
                byte_sec_total: (old(self).byte_sec_total + len) as u64,
                ..*old(self)
            }),
            final(self).wf(),
    {
        self.down_size = self.down_size + len;
        self.byte_sec_total = self.byte_sec_total + len;
    }

    /// Records `err` if the write-once slot is still empty; a later error
    /// is dropped.
    pub fn set_error(&mut self, err: DownloadError)
        ensures
            old(self).error is Some ==> *final(self) == *old(self),
            old(self).error is None ==> *final(self) == (DownloadInner {
                error: Some(err),
                ..*old(self)
            }),
            old(self).wf() ==> final(self).wf(),
    {
        match &self.error {
            Some(_) => (),
            None => {
                self.error = Some(err);
            }
        }
    }

    /// Reconciliation tail: force the progress counter to the full size and
    /// mark the session finished.  This runs whether or not any worker
    /// failed, so callers must consult the error slot as well.
    pub fn finish(&mut self)
        ensures
            *final(self) == (DownloadInner {
                down_size: old(self).size,
                is_finish: true,
                ..*old(self)
            }),
            old(self).wf() ==> final(self).wf(),
    {
        self.down_size = self.size;
        self.is_finish = true;
    }

    /// One tick of the rate sampler: the bytes accumulated over the last
    /// second become the published throughput figure and the accumulator
    /// restarts from zero.
    pub fn sample_byte_sec(&mut self)
        ensures
            *final(self) == (DownloadInner {
                byte_sec: old(self).byte_sec_total,
                byte_sec_total: 0,
                ..*old(self)
            }),
            old(self).wf() ==> final(self).wf(),
    {
        self.byte_sec = self.byte_sec_total;
        self.byte_sec_total = 0;
    }
}

} // verus!
