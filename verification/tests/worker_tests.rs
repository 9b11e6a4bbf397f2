use durl::error::DownloadError;
use durl::worker::run_pass;
use durl::worker::AttemptEvent;
use durl::worker::ChunkWorker;
use durl::worker::PassResult;
use durl::worker::RequestOutcome;

fn status(code: u16, text: &str, stream_complete: bool) -> AttemptEvent {
    AttemptEvent {
        outcome: RequestOutcome::Status { code, text: String::from(text) },
        stream_complete,
    }
}

fn timed_out() -> AttemptEvent {
    AttemptEvent { outcome: RequestOutcome::TimedOut, stream_complete: false }
}

#[test]
fn nine_rejections_then_partial_content_succeed() {
    // Nine 503 responses, then a 206 whose body runs to its end: the pass
    // succeeds on the tenth and last attempt.
    let mut events: Vec<AttemptEvent> = Vec::new();
    for _ in 0..9 {
        events.push(status(503, "503 Service Unavailable", false));
    }
    events.push(status(206, "206 Partial Content", true));
    assert!(matches!(run_pass(&events), PassResult::StreamDone));
}

#[test]
fn ten_rejections_fail_with_the_status() {
    let events: Vec<AttemptEvent> =
        (0..10).map(|_| status(503, "503 Service Unavailable", false)).collect();
    match run_pass(&events) {
        PassResult::Failed { err: DownloadError::HttpStatusError { status } } => {
            assert_eq!(status.as_str(), "503 Service Unavailable")
        }
        other => panic!("unexpected pass result: {:?}", other),
    }
}

#[test]
fn transport_error_on_last_attempt_fails_wrapped() {
    let mut events: Vec<AttemptEvent> = (0..9).map(|_| timed_out()).collect();
    events.push(AttemptEvent {
        outcome: RequestOutcome::Transport { msg: String::from("connection reset") },
        stream_complete: false,
    });
    match run_pass(&events) {
        PassResult::Failed { err: DownloadError::ReqwestError { msg } } => {
            assert_eq!(msg.as_str(), "connection reset")
        }
        other => panic!("unexpected pass result: {:?}", other),
    }
}

#[test]
fn timeouts_never_fail_a_pass() {
    // Ten timeouts exhaust the budget without failing; the outer loop then
    // starts a fresh pass from the cursor.
    let events: Vec<AttemptEvent> = (0..10).map(|_| timed_out()).collect();
    assert!(matches!(run_pass(&events), PassResult::Exhausted));
}

#[test]
fn interrupted_body_consumes_an_attempt() {
    // A streamable response whose body is cut off does not end the pass;
    // the next attempt may still complete it.
    let mut events: Vec<AttemptEvent> = Vec::new();
    events.push(status(206, "206 Partial Content", false));
    events.push(status(206, "206 Partial Content", true));
    for _ in 0..8 {
        events.push(timed_out());
    }
    assert!(matches!(run_pass(&events), PassResult::StreamDone));
}

#[test]
fn worker_range_and_completion() {
    let mut w = ChunkWorker::new(10, 19);
    assert_eq!(w.current, 10);
    assert!(!w.is_complete());
    w.current = 19;
    // The loop exits once the cursor reaches the last byte of the range.
    assert!(w.is_complete());
}
