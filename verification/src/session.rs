//! The download session: the orchestrator-owned record tying together the
//! effective worker count, the file write actor and the shared status, and
//! the operations the orchestrator and the chunk workers perform on it.
//!
//! The surrounding process resolves the remote size with one initial
//! request, spawns one task per planned chunk range and drives each through
//! the decision functions here, feeding back what the network produced.

use vstd::prelude::*;

verus! {

use crate::error::DownloadError;
use crate::file_save::FileSave;
use crate::file_save::spec_write_at;
use crate::numparse::parse_u64_decimal;
use crate::numparse::spec_parse_u64;
use crate::plan::chunk_ranges;
use crate::plan::effective_task_count;
use crate::plan::lemma_chunk_ranges_partition;
use crate::plan::lemma_effective_task_count_le_size;
use crate::plan::spec_chunk_end;
use crate::plan::spec_chunk_start;
use crate::plan::spec_effective_task_count;
use crate::plan::spec_total_span;
use crate::status::DownloadInner;
use crate::worker::ChunkWorker;
use crate::worker::WorkerAction;
use crate::worker::spec_worker_next_action;

/// Total bytes the workers of `ws` have durably written so far: the sum of
/// the distances each cursor has advanced from its range start.
pub open spec fn sum_written(ws: Seq<ChunkWorker>) -> int
    decreases ws.len(),
{
    if ws.len() == 0 {
        0
    } else {
        sum_written(ws.drop_last()) + (ws.last().current - ws.last().start)
    }
}

/// The workers of `ws` sit exactly on the planned chunk partition of
/// `size` bytes into `ws.len()` ranges, each with its cursor inside its
/// own range.
pub open spec fn workers_on_plan(ws: Seq<ChunkWorker>, size: int) -> bool {
    forall|i: int|
        0 <= i < ws.len() ==> {
            &&& (#[trigger] ws[i]).start == spec_chunk_start(size, ws.len() as int, i)
            &&& ws[i].end == spec_chunk_end(size, ws.len() as int, i)
            &&& ws[i].start <= ws[i].current <= ws[i].end + 1
        }
}

/// Replacing one worker changes the written sum by how far that worker's
/// cursor moved.
proof fn lemma_sum_written_update(ws: Seq<ChunkWorker>, i: int, w: ChunkWorker)
    requires
        0 <= i < ws.len(),
    ensures
        sum_written(ws.update(i, w)) == sum_written(ws) + (w.current - w.start) - (ws[i].current
            - ws[i].start),
    decreases ws.len(),
{
    let ws2 = ws.update(i, w);
    if i == ws.len() - 1 {
        assert(ws2.drop_last() =~= ws.drop_last());
    } else {
        assert(ws2.drop_last() =~= ws.drop_last().update(i, w));
        lemma_sum_written_update(ws.drop_last(), i, w);
    }
}

/// On the planned partition, the first `k` workers have written at most the
/// total span of the first `k` chunk ranges.
proof fn lemma_sum_written_le_span(ws: Seq<ChunkWorker>, size: int, k: int)
    requires
        workers_on_plan(ws, size),
        1 <= ws.len() <= size,
        0 <= k <= ws.len(),
    ensures
        sum_written(ws.take(k)) <= spec_total_span(size, ws.len() as int, k),
    decreases k,
{
    if k > 0 {
        lemma_sum_written_le_span(ws, size, k - 1);
        assert(ws.take(k).drop_last() =~= ws.take(k - 1));
    }
}

/// Every planned team of workers has written at most `size` bytes.
proof fn lemma_sum_written_le_size(ws: Seq<ChunkWorker>, size: int)
    requires
        workers_on_plan(ws, size),
        1 <= ws.len() <= size,
    ensures
        sum_written(ws) <= size,
        sum_written(ws) >= 0,
{
    lemma_sum_written_le_span(ws, size, ws.len() as int);
    assert(ws.take(ws.len() as int) =~= ws);
    lemma_chunk_ranges_partition(size, ws.len() as int);
    lemma_sum_written_nonneg(ws);
}

/// Cursors never sit before their range start, so the written sum is never
/// negative.
proof fn lemma_sum_written_nonneg(ws: Seq<ChunkWorker>)
    requires
        forall|i: int| 0 <= i < ws.len() ==> (#[trigger] ws[i]).start <= ws[i].current,
    ensures
        sum_written(ws) >= 0,
    decreases ws.len(),
{
    if ws.len() > 0 {
        lemma_sum_written_nonneg(ws.drop_last());
    }
}

/// One download session.
pub struct DownloadFile {
    /// The effective worker count the plan settled on.
    pub task_count: u64,
    /// The file write actor for the output file.
    pub save_file: FileSave,
    /// The shared status record.
    pub inner_status: DownloadInner,
    /// One worker per planned chunk range; empty for a size-zero transfer.
    pub workers: Vec<ChunkWorker>,
}

impl DownloadFile {
    /// Session-wide well-formedness: the status, actor and workers agree on
    /// the size; the workers sit on the planned partition; while the session
    /// runs, the temporary file is open and pre-sized and the progress
    /// counter equals the bytes the workers have written; once finished, the
    /// destination file holds exactly `size` bytes and the temporary file is
    /// gone.
    pub open spec fn wf(&self) -> bool {
        &&& self.inner_status.wf()
        &&& self.inner_status.size == self.save_file.len
        &&& self.save_file.len <= usize::MAX as u64
        &&& if self.inner_status.size > 0 {
            &&& self.workers@.len() == self.task_count
            &&& 1 <= self.task_count <= self.inner_status.size
            &&& workers_on_plan(self.workers@, self.inner_status.size as int)
        } else {
            self.workers@.len() == 0
        }
        &&& !self.inner_status.is_finish ==> {
            &&& self.save_file.opened
            &&& self.save_file.temp_exists
            &&& self.save_file.temp_data@.len() == self.inner_status.size
            &&& self.inner_status.down_size as int == sum_written(self.workers@)
        }
        &&& self.inner_status.is_finish ==> {
            &&& !self.save_file.opened
            &&& !self.save_file.temp_exists
            &&& self.save_file.real_exists
            &&& self.save_file.real_data@.len() == self.inner_status.size
            &&& self.inner_status.down_size == self.inner_status.size
        }
    }

    /// Opens a session for a transfer of `size` bytes of `url` into
    /// `save_path` (already resolved to a file path): plans the effective
    /// worker count and the chunk ranges, creates the file actor (deleting
    /// any stale temporary file and pre-sizing a fresh one) and the shared
    /// status.  A size-zero transfer finalizes immediately: the empty
    /// destination file exists and the session is finished without ever
    /// having started; otherwise the session starts with one worker per
    /// planned range, each at its range start.
    pub fn start_download(url: String, save_path: String, size: u64, task_count: u64, block: u64) -> (r:
        DownloadFile)
        requires
            block >= 1,
            size <= usize::MAX as u64,
        ensures
            r.wf(),
            r.task_count as int == spec_effective_task_count(
                task_count as int,
                size as int,
                block as int,
            ),
            r.inner_status.url == url,
            r.inner_status.size == size,
            r.inner_status.down_size == 0 || size == 0,
            r.inner_status.error is None,
            r.inner_status.byte_sec == 0,
            r.inner_status.byte_sec_total == 0,
            r.save_file.real_path == save_path,
            r.save_file.save_path@ == crate::pathutil::spec_temp_path(save_path@),
            size == 0 ==> {
                &&& r.inner_status.is_finish
                &&& !r.inner_status.is_start
                &&& r.save_file.real_exists
                &&& r.save_file.real_data@.len() == 0
                &&& !r.save_file.temp_exists
                &&& r.workers@.len() == 0
            },
            size > 0 ==> {
                &&& !r.inner_status.is_finish
                &&& r.inner_status.is_start
                &&& r.workers@.len() == r.task_count
                &&& forall|i: int|
                    0 <= i < r.workers@.len() ==> (#[trigger] r.workers@[i]).current
                        == r.workers@[i].start
            },
    {
        let count = effective_task_count(task_count, size, block);
        let mut save_file = FileSave::create(save_path, size);
        let mut inner_status = DownloadInner::new(url, size);
        save_file.init();
        let mut workers: Vec<ChunkWorker> = Vec::new();
        if size > 0 {
            proof {
                lemma_effective_task_count_le_size(task_count as int, size as int, block as int);
            }
            inner_status.is_start = true;
            let ranges = chunk_ranges(size, count);
            let mut i: usize = 0;
            while i < ranges.len()
                invariant
                    i <= ranges.len(),
                    workers@.len() == i,
                    1 <= count <= size,
                    ranges@.len() == count,
                    forall|j: int|
                        0 <= j < count ==> #[trigger] ranges@[j].start == spec_chunk_start(
                            size as int,
                            count as int,
                            j,
                        ),
                    forall|j: int|
                        0 <= j < count ==> #[trigger] ranges@[j].end == spec_chunk_end(
                            size as int,
                            count as int,
                            j,
                        ),
                    forall|j: int|
                        0 <= j < i ==> #[trigger] workers@[j] == (ChunkWorker {
                            start: ranges@[j].start,
                            end: ranges@[j].end,
                            current: ranges@[j].start,
                        }),
                decreases ranges.len() - i,
            {
                let range = ranges[i];
                workers.push(ChunkWorker { start: range.start, end: range.end, current: range.start });
                i = i + 1;
            }
            proof {
                lemma_chunk_ranges_partition(size as int, count as int);
                lemma_sum_written_nonneg(workers@);
                lemma_sum_written_zero(workers@);
            }
        } else {
            save_file.finish();
            inner_status.finish();
        }
        DownloadFile { task_count: count, save_file, inner_status, workers }
    }

    /// What worker `w` does next, given the flags it just observed.
    pub fn worker_next_action(&self, w: usize) -> (r: WorkerAction)
        requires
            w < self.workers@.len(),
        ensures
            r == spec_worker_next_action(
                self.workers@[w as int],
                self.inner_status.is_finish,
                self.inner_status.is_start,
            ),
    {
        crate::worker::worker_next_action(
            &self.workers[w],
            self.inner_status.is_finish,
            self.inner_status.is_start,
        )
    }

    /// One body chunk received by worker `w`: the bytes are written to the
    /// file actor at the worker's cursor, the cursor advances past them,
    /// and the progress counters are credited.  Returns `Ok(true)` to keep
    /// streaming, `Ok(false)` when the caller has suspended the session
    /// (the worker leaves its cursor at the last fully written position and
    /// returns to its outer loop), and the file actor's error if the file
    /// was already finalized, in which case nothing changes.
    pub fn deliver_body_chunk(&mut self, w: usize, data: &[u8]) -> (r: Result<bool, DownloadError>)
        requires
            old(self).wf(),
            w < old(self).workers@.len(),
            data@.len() <= old(self).workers@[w as int].end + 1 - old(self).workers@[w as int].current,
        ensures
            final(self).wf(),
            match r {
                Ok(keep_streaming) => {
                    &&& !old(self).inner_status.is_finish
                    &&& keep_streaming == old(self).inner_status.is_start
                    &&& final(self).workers@ == old(self).workers@.update(
                        w as int,
                        (ChunkWorker {
                            current: (old(self).workers@[w as int].current + data@.len()) as u64,
                            ..old(self).workers@[w as int]
                        }),
                    )
                    &&& final(self).save_file.temp_data@ == spec_write_at(
                        old(self).save_file.temp_data@,
                        old(self).workers@[w as int].current as int,
                        data@,
                    )
                    &&& final(self).save_file == (FileSave {
                        pos: (old(self).workers@[w as int].current + data@.len()) as u64,
                        temp_data: final(self).save_file.temp_data,
                        ..old(self).save_file
                    })
                    &&& final(self).inner_status == (DownloadInner {
                        down_size: (old(self).inner_status.down_size + data@.len()) as u64,
                        byte_sec_total: (old(self).inner_status.byte_sec_total
                            + data@.len()) as u64,
                        ..old(self).inner_status
                    })
                    &&& final(self).task_count == old(self).task_count
                },
                Err(e) => {
                    &&& old(self).inner_status.is_finish
                    &&& *final(self) == *old(self)
                    &&& (e matches DownloadError::SaveFileFinish { path } && path@ == old(
                        self,
                    ).save_file.real_path@)
                },
            },
    {
        let ghost old_workers = self.workers@;
        let ghost size = self.inner_status.size as int;
        let wk = self.workers[w];
        let len = data.len() as u64;
        proof {
            assert(old_workers.len() >= 1);
            crate::plan::lemma_chunk_nonempty(size, old_workers.len() as int, w as int);
            if !self.inner_status.is_finish {
                lemma_sum_written_le_size(old_workers, size);
            }
        }
        match self.save_file.write_all_by_offset(data, wk.current) {
            Err(e) => {
                proof {
                    if !self.inner_status.is_finish {
                        assert(self.save_file.opened);
                    }
                }
                return Err(e);
            },
            Ok(_) => {},
        }
        let ghost wk2 = ChunkWorker { current: (wk.current + len) as u64, ..wk };
        proof {
            assert(!self.inner_status.is_finish);
            lemma_sum_written_update(old_workers, w as int, wk2);
            lemma_sum_written_le_size(old_workers.update(w as int, wk2), size);
        }
        self.workers[w] = ChunkWorker { start: wk.start, end: wk.end, current: wk.current + len };
        self.inner_status.add_down_size(len);
        Ok(self.inner_status.is_start)
    }

    /// Records the terminal result of one chunk worker into the write-once
    /// error slot: the first failure wins, later failures are dropped.
    pub fn record_worker_result(&mut self, result: Result<(), DownloadError>)
        ensures
            match result {
                Ok(_) => *final(self) == *old(self),
                Err(e) => {
                    &&& final(self).inner_status == (DownloadInner {
                        error: if old(self).inner_status.error is Some {
                            old(self).inner_status.error
                        } else {
                            Some(e)
                        },
                        ..old(self).inner_status
                    })
                    &&& final(self).save_file == old(self).save_file
                    &&& final(self).workers == old(self).workers
                    &&& final(self).task_count == old(self).task_count
                },
            },
            old(self).wf() ==> final(self).wf(),
    {
        match result {
            Ok(_) => (),
            Err(e) => {
                self.inner_status.set_error(e);
            },
        }
    }

    /// Reconciliation, run once every worker has reached a terminal state,
    /// whether or not any failed: the file actor flushes and renames the
    /// temporary file onto the destination, the progress counter is forced
    /// to the full size, and the session is marked finished.  Afterwards
    /// the destination file exists with exactly `size` bytes, the temporary
    /// file does not, and the error slot is untouched, so callers must
    /// check it to tell a complete file from a partial one.
    pub fn reconcile(&mut self)
        requires
            old(self).wf(),
        ensures
            final(self).wf(),
            final(self).inner_status == (DownloadInner {
                down_size: old(self).inner_status.size,
                is_finish: true,
                ..old(self).inner_status
            }),
            final(self).save_file.real_exists,
            !final(self).save_file.temp_exists,
            final(self).save_file.real_data@.len() == old(self).inner_status.size,
            !old(self).inner_status.is_finish ==> final(self).save_file.real_data@ == old(
                self,
            ).save_file.temp_data@,
            old(self).inner_status.is_finish ==> final(self).save_file == old(self).save_file,
            final(self).save_file.real_path == old(self).save_file.real_path,
            final(self).save_file.save_path == old(self).save_file.save_path,
            final(self).workers == old(self).workers,
            final(self).task_count == old(self).task_count,
    {
        self.save_file.finish();
        self.inner_status.finish();
    }

    /// The URL this session downloads.
    pub fn url(&self) -> (r: &str)
        ensures
            r@ == self.inner_status.url@,
    {
        self.inner_status.url()
    }

    /// The shared status record.
    pub fn get_status(&self) -> (r: &DownloadInner)
        ensures
            r == &self.inner_status,
    {
        &self.inner_status
    }

    /// Total remote size in bytes.
    pub fn size(&self) -> (r: u64)
        ensures
            r == self.inner_status.size,
    {
        self.inner_status.size
    }

    /// Bytes downloaded so far.
    pub fn get_down_size(&self) -> (r: u64)
        ensures
            r == self.inner_status.down_size,
    {
        self.inner_status.get_down_size()
    }

    /// Whether the session is currently allowed to make progress.
    pub fn is_start(&self) -> (r: bool)
        ensures
            r == self.inner_status.is_start,
    {
        self.inner_status.is_start()
    }

    /// Whether the session has reached its terminal state.
    pub fn is_finish(&self) -> (r: bool)
        ensures
            r == self.inner_status.is_finish,
    {
        self.inner_status.is_finish()
    }

    /// Whether any worker or the finalization recorded an error.
    pub fn is_error(&self) -> (r: bool)
        ensures
            r == (self.inner_status.error is Some),
    {
        self.inner_status.is_error()
    }

    /// The first error recorded, if any.
    pub fn get_error(&self) -> (r: Option<&DownloadError>)
        ensures
            match r {
                Some(e) => self.inner_status.error matches Some(inner) && *e == inner,
                None => self.inner_status.error is None,
            },
    {
        self.inner_status.get_error()
    }

    /// The destination path of the output file.
    pub fn get_real_file_path(&self) -> (r: String)
        ensures
            r@ == self.save_file.real_path@,
    {
        self.save_file.get_real_file_path()
    }

    /// Lowers the cooperative pause flag; workers suspend between attempts.
    pub fn suspend(&mut self)
        ensures
            final(self).inner_status == (DownloadInner {
                is_start: false,
                ..old(self).inner_status
            }),
            final(self).save_file == old(self).save_file,
            final(self).workers == old(self).workers,
            final(self).task_count == old(self).task_count,
            old(self).wf() ==> final(self).wf(),
    {
        self.inner_status.is_start = false;
    }

    /// Raises the cooperative pause flag again; workers resume from their
    /// cursors, never re-downloading bytes already written.
    pub fn restart(&mut self)
        ensures
            final(self).inner_status == (DownloadInner {
                is_start: true,
                ..old(self).inner_status
            }),
            final(self).save_file == old(self).save_file,
            final(self).workers == old(self).workers,
            final(self).task_count == old(self).task_count,
            old(self).wf() ==> final(self).wf(),
    {
        self.inner_status.is_start = true;
    }

    /// Reads the remote size out of the initial response: a non-success
    /// status is rejected with its status text, and a missing or unusable
    /// content-length header with `NotGetFileSize`.
    pub fn get_size(status_code: u16, status_text: &str, content_length: Option<&str>, url: &str) -> (r:
        Result<u64, DownloadError>)
        ensures
            match r {
                Ok(size) => {
                    &&& status_code == 200
                    &&& content_length matches Some(v) && spec_parse_u64(v@) == Some(size)
                },
                Err(e) => match e {
                    DownloadError::HttpStatusError { status } => {
                        &&& status_code != 200
                        &&& status@ == status_text@
                    },
                    DownloadError::NotGetFileSize { url: u } => {
                        &&& status_code == 200
                        &&& u@ == url@
                        &&& (content_length matches Some(v) ==> spec_parse_u64(v@) is None)
                    },
                    _ => false,
                },
            },
    {
        if status_code != 200 {
            return Err(
                DownloadError::HttpStatusError { status: String::from_str(status_text) },
            );
        }
        match content_length {
            None => Err(DownloadError::NotGetFileSize { url: String::from_str(url) }),
            Some(v) => match Self::parse_content_length(v) {
                None => Err(DownloadError::NotGetFileSize { url: String::from_str(url) }),
                Some(size) => Ok(size),
            },
        }
    }

    /// Parses a content-length header value as a decimal byte count.
    pub fn parse_content_length(value: &str) -> (r: Option<u64>)
        ensures
            r == spec_parse_u64(value@),
    {
        parse_u64_decimal(value)
    }
}

/// A team of workers still at their range starts has written nothing.
proof fn lemma_sum_written_zero(ws: Seq<ChunkWorker>)
    requires
        forall|i: int| 0 <= i < ws.len() ==> (#[trigger] ws[i]).current == ws[i].start,
    ensures
        sum_written(ws) == 0,
    decreases ws.len(),
{
    if ws.len() > 0 {
        lemma_sum_written_zero(ws.drop_last());
    }
}

} // verus!
