//! The chunk worker protocol: one worker owns one contiguous byte range,
//! keeps a cursor of how far it has durably written, and decides after each
//! network outcome whether to stream, retry or fail.
//!
//! The functions here are the decision core of the worker loop: the
//! surrounding process performs the ranged requests and body reads, and
//! feeds each outcome back in.  Because every retry re-issues the range
//! request at the current cursor rather than at the start of the range, a
//! worker never re-downloads bytes it has already written.

use vstd::prelude::*;

verus! {

use crate::error::DownloadError;

/// The HTTP status accepted as a full-content response.
pub const HTTP_OK: u16 = 200;

/// The HTTP status accepted as a partial-content (ranged) response.
pub const HTTP_PARTIAL_CONTENT: u16 = 206;

/// Attempts a worker makes per pass before giving up on its range.
pub const RETRY_ATTEMPTS: u64 = 10;

/// One chunk worker: the inclusive byte range it owns and the cursor of the
/// next byte to write, which starts at `start` and only ever advances.
#[derive(Clone, Copy, Debug, PartialEq, Eq, Structural)]
pub struct ChunkWorker {
    pub start: u64,
    pub end: u64,
    pub current: u64,
}

impl ChunkWorker {
    /// The cursor stays within the owned range (one past `end` at most).
    pub open spec fn wf(&self) -> bool {
        &&& self.start <= self.current <= self.end + 1
        &&& self.end < u64::MAX
    }

    /// A worker for the inclusive range `[start, end]`, about to request
    /// its first byte.
    pub fn new(start: u64, end: u64) -> (r: ChunkWorker)
        requires
            start <= end,
            end < u64::MAX,
        ensures
            r == (ChunkWorker { start, end, current: start }),
            r.wf(),
    {
        ChunkWorker { start, end, current: start }
    }

    /// A worker is done once its cursor has reached the last byte of its
    /// range.
    pub fn is_complete(&self) -> (r: bool)
        ensures
            r == (self.current >= self.end),
    {
        self.current >= self.end
    }
}

/// What a worker does next at the top of its loop.
#[derive(Clone, Debug, PartialEq, Eq, Structural)]
pub enum WorkerAction {
    /// The range is delivered (or the session is terminal): return success.
    Complete,
    /// The session is paused: sleep one second and check again.
    PauseSleep,
    /// Request `bytes={offset}-{end}` and stream the response.
    Request { offset: u64, end: u64 },
}

/// The worker loop head: done when the session is finished or the cursor
/// has reached the end of the range; paused unless the start flag is up;
/// otherwise a ranged request from the cursor.
pub open spec fn spec_worker_next_action(w: ChunkWorker, is_finish: bool, is_start: bool) -> WorkerAction {
    if is_finish || w.current >= w.end {
        WorkerAction::Complete
    } else if !is_start {
        WorkerAction::PauseSleep
    } else {
        WorkerAction::Request { offset: w.current, end: w.end }
    }
}

/// Decides what a worker does at the top of its loop, given the session
/// flags it just observed.
pub fn worker_next_action(w: &ChunkWorker, is_finish: bool, is_start: bool) -> (r: WorkerAction)
    ensures
        r == spec_worker_next_action(*w, is_finish, is_start),
{
    if is_finish || w.current >= w.end {
        WorkerAction::Complete
    } else if !is_start {
        WorkerAction::PauseSleep
    } else {
        WorkerAction::Request { offset: w.current, end: w.end }
    }
}

/// What one ranged request produced: a response with its status, a
/// non-timeout transport failure, or no response within the timeout.
#[derive(Debug)]
pub enum RequestOutcome {
    /// A response arrived; `text` is its status line rendering.
    Status { code: u16, text: String },
    /// The request or response failed below HTTP.
    Transport { msg: String },
    /// No response arrived within the per-request timeout.
    TimedOut,
}

/// What the worker does with one request outcome.
#[derive(Debug)]
pub enum AttemptDecision {
    /// A usable (full or partial content) response: stream its body.
    ReadBody,
    /// Log and try again within the attempt budget.
    Retry,
    /// The budget is exhausted: the worker fails with this error.
    Fail { err: DownloadError },
}

/// The retry rule of one attempt, with `retries_left` attempts remaining
/// after this one: a full- or partial-content status is streamed; any other
/// status retries until the budget is exhausted, then fails with the status
/// text; a transport error likewise retries, then fails wrapped; a timeout
/// only ever retries (consuming this pass's attempt, never failing it).
pub open spec fn spec_decide_attempt(outcome: RequestOutcome, retries_left: u64) -> AttemptDecision {
    match outcome {
        RequestOutcome::Status { code, text } => {
            if code == HTTP_OK || code == HTTP_PARTIAL_CONTENT {
                AttemptDecision::ReadBody
            } else if retries_left > 0 {
                AttemptDecision::Retry
            } else {
                AttemptDecision::Fail { err: DownloadError::HttpStatusError { status: text } }
            }
        },
        RequestOutcome::Transport { msg } => {
            if retries_left > 0 {
                AttemptDecision::Retry
            } else {
                AttemptDecision::Fail { err: DownloadError::ReqwestError { msg } }
            }
        },
        RequestOutcome::TimedOut => AttemptDecision::Retry,
    }
}

/// What one attempt looked like to the worker: the request outcome, and —
/// when the response was streamable — whether its body then ran to its
/// natural end (an interrupted body sends the worker back into the same
/// attempt budget).
#[derive(Debug)]
pub struct AttemptEvent {
    pub outcome: RequestOutcome,
    pub stream_complete: bool,
}

/// How one pass through the attempt budget ended.
#[derive(Debug)]
pub enum PassResult {
    /// A body was streamed to its natural end; the outer loop decides from
    /// the cursor whether the range is done.
    StreamDone,
    /// The budget ran out on a failing attempt: the worker fails.
    Failed { err: DownloadError },
    /// The budget ran out on retries alone (timeouts, interrupted bodies):
    /// the outer loop starts a fresh pass from the cursor.
    Exhausted,
}

/// The result of one pass: attempts are consumed front to back until a
/// body completes, an attempt fails terminally, or the budget runs out.
pub open spec fn spec_run_pass(events: Seq<AttemptEvent>, budget: int) -> PassResult
    decreases budget,
{
    if budget <= 0 {
        PassResult::Exhausted
    } else {
        let e = events[0];
        match spec_decide_attempt(e.outcome, (budget - 1) as u64) {
            AttemptDecision::ReadBody => {
                if e.stream_complete {
                    PassResult::StreamDone
                } else {
                    spec_run_pass(events.skip(1), budget - 1)
                }
            },
            AttemptDecision::Retry => spec_run_pass(events.skip(1), budget - 1),
            AttemptDecision::Fail { err } => PassResult::Failed { err },
        }
    }
}

/// An exact copy of a request outcome, for replaying it through the
/// retry rule.
fn clone_outcome(o: &RequestOutcome) -> (r: RequestOutcome)
    ensures
        r == *o,
{
    match o {
        RequestOutcome::Status { code, text } => RequestOutcome::Status {
            code: *code,
            text: text.clone(),
        },
        RequestOutcome::Transport { msg } => RequestOutcome::Transport { msg: msg.clone() },
        RequestOutcome::TimedOut => RequestOutcome::TimedOut,
    }
}

/// One pass of the worker's retry loop over what the network produced,
/// attempt by attempt, under the ten-attempt budget.
pub fn run_pass(events: &Vec<AttemptEvent>) -> (r: PassResult)
    requires
        events@.len() >= RETRY_ATTEMPTS,
    ensures
        r == spec_run_pass(events@, RETRY_ATTEMPTS as int),
{
    let mut i: u64 = 0;
    proof {
        assert(events@.skip(0) =~= events@);
    }
    while i < RETRY_ATTEMPTS
        invariant
            i <= RETRY_ATTEMPTS,
            events@.len() >= RETRY_ATTEMPTS,
            spec_run_pass(events@, RETRY_ATTEMPTS as int) == spec_run_pass(
                events@.skip(i as int),
                (RETRY_ATTEMPTS - i) as int,
            ),
        decreases RETRY_ATTEMPTS - i,
    {
        let e = &events[i as usize];
        let retries_left = RETRY_ATTEMPTS - i - 1;
        proof {
            assert(events@.skip(i as int)[0] == events@[i as int]);
            assert(events@.skip(i as int).skip(1) =~= events@.skip(i as int + 1));
        }
        match decide_attempt(clone_outcome(&e.outcome), retries_left) {
            AttemptDecision::ReadBody => {
                if e.stream_complete {
                    return PassResult::StreamDone;
                }
            },
            AttemptDecision::Retry => {},
            AttemptDecision::Fail { err } => {
                return PassResult::Failed { err };
            },
        }
        i = i + 1;
    }
    PassResult::Exhausted
}

/// Decides how a worker responds to one request outcome, with
/// `retries_left` attempts remaining after this one.
pub fn decide_attempt(outcome: RequestOutcome, retries_left: u64) -> (r: AttemptDecision)
    ensures
        r == spec_decide_attempt(outcome, retries_left),
{
    match outcome {
        RequestOutcome::Status { code, text } => {
            if code == HTTP_OK || code == HTTP_PARTIAL_CONTENT {
                AttemptDecision::ReadBody
            } else if retries_left > 0 {
                AttemptDecision::Retry
            } else {
                AttemptDecision::Fail { err: DownloadError::HttpStatusError { status: text } }
            }
        },
        RequestOutcome::Transport { msg } => {
            if retries_left > 0 {
                AttemptDecision::Retry
            } else {
                AttemptDecision::Fail { err: DownloadError::ReqwestError { msg } }
            }
        },
        RequestOutcome::TimedOut => AttemptDecision::Retry,
    }
}

} // verus!
