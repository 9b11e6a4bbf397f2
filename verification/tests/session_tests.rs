use durl::error::DownloadError;
use durl::session::DownloadFile;
use durl::worker::decide_attempt;
use durl::worker::AttemptDecision;
use durl::worker::RequestOutcome;
use durl::worker::WorkerAction;

fn remote_content(len: usize) -> Vec<u8> {
    (0..len).map(|i| (i % 251) as u8).collect()
}

#[test]
fn size_zero_finishes_immediately() {
    // A size-zero remote resource: immediately finished, never started,
    // empty destination file, no workers, no error.
    let s = DownloadFile::start_download(
        String::from("http://e/empty.bin"),
        String::from("empty.bin"),
        0,
        8,
        1_048_576,
    );
    assert!(s.is_finish());
    assert!(!s.is_start());
    assert!(!s.is_error());
    assert_eq!(s.get_down_size(), 0);
    assert!(s.save_file.real_exists);
    assert!(s.save_file.real_data.is_empty());
    assert!(!s.save_file.temp_exists);
    assert!(s.workers.is_empty());
    assert_eq!(s.get_status().get_percent_complete(), 0);
}

#[test]
fn single_worker_full_transfer() {
    let content = remote_content(10);
    let mut s = DownloadFile::start_download(
        String::from("http://e/f.bin"),
        String::from("f.bin"),
        10,
        1,
        1_048_576,
    );
    assert!(s.is_start());
    assert!(!s.is_finish());
    assert_eq!(s.workers.len(), 1);
    match s.worker_next_action(0) {
        WorkerAction::Request { offset, end } => {
            assert_eq!(offset, 0);
            assert_eq!(end, 9);
        }
        other => panic!("unexpected action: {:?}", other),
    }
    assert_eq!(s.deliver_body_chunk(0, &content[0..4]).unwrap(), true);
    assert_eq!(s.get_down_size(), 4);
    assert_eq!(s.get_status().get_percent_complete(), 4000);
    assert_eq!(s.deliver_body_chunk(0, &content[4..10]).unwrap(), true);
    assert!(matches!(s.worker_next_action(0), WorkerAction::Complete));
    s.record_worker_result(Ok(()));
    s.reconcile();
    assert!(s.is_finish());
    assert!(!s.is_error());
    assert_eq!(s.save_file.real_data, content);
}

#[test]
fn retry_budget_survives_nine_rejections() {
    // A worker's request returns HTTP 503 nine times and HTTP 206 on the
    // tenth attempt: the worker succeeds and no error is recorded.
    let content = remote_content(6);
    let mut s = DownloadFile::start_download(
        String::from("http://e/f.bin"),
        String::from("f.bin"),
        6,
        1,
        1_048_576,
    );
    let mut retries_consumed = 0;
    let mut delivered = false;
    // Attempt i counts down from 9 to 0, as many attempts as the budget.
    for i in (0..10u64).rev() {
        let outcome = if i == 0 {
            RequestOutcome::Status { code: 206, text: String::from("206 Partial Content") }
        } else {
            RequestOutcome::Status { code: 503, text: String::from("503 Service Unavailable") }
        };
        match decide_attempt(outcome, i) {
            AttemptDecision::Retry => retries_consumed += 1,
            AttemptDecision::ReadBody => {
                assert_eq!(s.deliver_body_chunk(0, &content).unwrap(), true);
                delivered = true;
                break;
            }
            AttemptDecision::Fail { err } => panic!("worker failed early: {:?}", err),
        }
    }
    assert!(delivered);
    assert_eq!(retries_consumed, 9);
    s.record_worker_result(Ok(()));
    s.reconcile();
    assert!(s.is_finish());
    assert!(!s.is_error());
    assert_eq!(s.save_file.real_data, content);
}

#[test]
fn tenth_rejection_fails_the_worker() {
    let out = RequestOutcome::Status { code: 503, text: String::from("503 Service Unavailable") };
    match decide_attempt(out, 0) {
        AttemptDecision::Fail { err: DownloadError::HttpStatusError { status } } => {
            assert_eq!(status.as_str(), "503 Service Unavailable")
        }
        other => panic!("unexpected decision: {:?}", other),
    }
    // A timeout never fails an attempt, even the last.
    assert!(matches!(decide_attempt(RequestOutcome::TimedOut, 0), AttemptDecision::Retry));
}

#[test]
fn sibling_failure_does_not_stop_the_session() {
    // One worker exhausts its attempts with a transport error while three
    // siblings succeed: the session still finishes, with the error
    // recorded, the progress counter forced to the full size and the
    // destination file renamed despite the gap.
    let content = remote_content(40);
    let mut s = DownloadFile::start_download(
        String::from("http://e/f.bin"),
        String::from("f.bin"),
        40,
        4,
        10,
    );
    assert_eq!(s.workers.len(), 4);
    for w in 0..3usize {
        let start = s.workers[w].start as usize;
        let end = s.workers[w].end as usize;
        assert_eq!(s.deliver_body_chunk(w, &content[start..=end]).unwrap(), true);
        s.record_worker_result(Ok(()));
    }
    // The fourth worker's last attempt fails below HTTP.
    let decision = decide_attempt(
        RequestOutcome::Transport { msg: String::from("connection reset") },
        0,
    );
    match decision {
        AttemptDecision::Fail { err } => s.record_worker_result(Err(err)),
        other => panic!("unexpected decision: {:?}", other),
    }
    assert_eq!(s.get_down_size(), 30);
    s.reconcile();
    assert!(s.is_finish());
    assert!(s.is_error());
    assert_eq!(s.get_down_size(), 40);
    match s.get_error() {
        Some(DownloadError::ReqwestError { msg }) => assert_eq!(msg.as_str(), "connection reset"),
        other => panic!("unexpected error: {:?}", other),
    }
    assert!(s.save_file.real_exists);
    assert!(!s.save_file.temp_exists);
    assert_eq!(s.save_file.real_data.len(), 40);
    // The range of the failed worker keeps its pre-sized zero bytes.
    assert_eq!(&s.save_file.real_data[0..30], &content[0..30]);
    assert_eq!(&s.save_file.real_data[30..40], &[0u8; 10]);
}

#[test]
fn suspend_and_restart_resume_without_rewriting() {
    // The same content transferred twice: once uninterrupted, once
    // suspended mid-stream and restarted.  The outputs are byte-for-byte
    // identical, and the resumed worker re-requests from its cursor rather
    // than from the start of its range.
    let content = remote_content(12);

    let mut a = DownloadFile::start_download(
        String::from("http://e/f.bin"),
        String::from("f.bin"),
        12,
        1,
        1_048_576,
    );
    assert_eq!(a.deliver_body_chunk(0, &content).unwrap(), true);
    a.record_worker_result(Ok(()));
    a.reconcile();

    let mut b = DownloadFile::start_download(
        String::from("http://e/f.bin"),
        String::from("f.bin"),
        12,
        1,
        1_048_576,
    );
    assert_eq!(b.deliver_body_chunk(0, &content[0..5]).unwrap(), true);
    b.suspend();
    // The chunk in flight is still written, then the worker sees the flag.
    assert_eq!(b.deliver_body_chunk(0, &content[5..7]).unwrap(), false);
    assert!(matches!(b.worker_next_action(0), WorkerAction::PauseSleep));
    assert_eq!(b.workers[0].current, 7);
    b.restart();
    match b.worker_next_action(0) {
        WorkerAction::Request { offset, end } => {
            // Resume from the last durably written offset, not from 0.
            assert_eq!(offset, 7);
            assert_eq!(end, 11);
        }
        other => panic!("unexpected action: {:?}", other),
    }
    assert_eq!(b.deliver_body_chunk(0, &content[7..12]).unwrap(), true);
    b.record_worker_result(Ok(()));
    b.reconcile();

    assert!(!a.is_error() && !b.is_error());
    assert_eq!(a.save_file.real_data, content);
    assert_eq!(b.save_file.real_data, a.save_file.real_data);
}

#[test]
fn abnormal_task_end_is_recorded_as_join_error() {
    let mut s = DownloadFile::start_download(
        String::from("http://e/f.bin"),
        String::from("f.bin"),
        4,
        1,
        1_048_576,
    );
    s.record_worker_result(Err(DownloadError::JoinInError { msg: String::from("cancelled") }));
    assert!(s.is_error());
    match s.get_error() {
        Some(DownloadError::JoinInError { msg }) => assert_eq!(msg.as_str(), "cancelled"),
        other => panic!("unexpected error: {:?}", other),
    }
    assert_eq!(s.get_error().unwrap().error_code(), 7);
}

#[test]
fn delivery_after_reconcile_fails() {
    let mut s = DownloadFile::start_download(
        String::from("http://e/f.bin"),
        String::from("f.bin"),
        4,
        1,
        1_048_576,
    );
    s.reconcile();
    match s.deliver_body_chunk(0, &[1, 2]) {
        Err(DownloadError::SaveFileFinish { path }) => assert_eq!(path.as_str(), "f.bin"),
        other => panic!("unexpected result: {:?}", other),
    }
}

#[test]
fn accessors_reflect_the_plan() {
    let s = DownloadFile::start_download(
        String::from("http://e/big.bin"),
        String::from("big.bin"),
        10_000_000,
        8,
        1_048_576,
    );
    assert_eq!(s.url(), "http://e/big.bin");
    assert_eq!(s.size(), 10_000_000);
    assert_eq!(s.task_count, 8);
    assert_eq!(s.get_real_file_path().as_str(), "big.bin");
    assert_eq!(s.save_file.get_save_file_path().as_str(), "big.dd");
    assert_eq!(s.workers[0].start, 0);
    assert_eq!(s.workers[0].end, 1_249_999);
    assert_eq!(s.workers[7].start, 8_750_000);
    assert_eq!(s.workers[7].end, 9_999_999);
}
