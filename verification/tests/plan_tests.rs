use durl::plan::chunk_ranges;
use durl::plan::effective_task_count;

#[test]
fn effective_count_large_file() {
    // size = 10_000_000, block = 1 MiB: nine whole blocks fit, so eight
    // requested workers are all granted.
    assert_eq!(effective_task_count(8, 10_000_000, 1_048_576), 8);
}

#[test]
fn effective_count_capped_by_pieces() {
    // 15 requested, but only 9 block-sized pieces in the file.
    assert_eq!(effective_task_count(15, 10_000_000, 1_048_576), 9);
}

#[test]
fn effective_count_at_least_one() {
    assert_eq!(effective_task_count(0, 10_000_000, 1_048_576), 1);
    assert_eq!(effective_task_count(8, 100, 1_048_576), 1);
    assert_eq!(effective_task_count(8, 0, 1_048_576), 1);
}

#[test]
fn ranges_partition_large_file() {
    // size = 10_000_000 over 8 workers: every range spans 1_250_000 bytes;
    // the first covers [0, 1249999] and the last [8750000, 9999999].
    let r = chunk_ranges(10_000_000, 8);
    assert_eq!(r.len(), 8);
    assert_eq!(r[0].start, 0);
    assert_eq!(r[0].end, 1_249_999);
    assert_eq!(r[7].start, 8_750_000);
    assert_eq!(r[7].end, 9_999_999);
    let mut total: u64 = 0;
    for i in 0..r.len() {
        if i > 0 {
            assert_eq!(r[i].start, r[i - 1].end + 1);
        }
        total += r[i].end - r[i].start + 1;
    }
    assert_eq!(total, 10_000_000);
}

#[test]
fn ranges_partition_with_remainder() {
    // 10 bytes over 3 workers: spans 3, 3 and 4; the last absorbs the
    // remainder.
    let r = chunk_ranges(10, 3);
    assert_eq!(r.len(), 3);
    assert_eq!((r[0].start, r[0].end), (0, 2));
    assert_eq!((r[1].start, r[1].end), (3, 5));
    assert_eq!((r[2].start, r[2].end), (6, 9));
}

#[test]
fn ranges_partition_small_quotient() {
    // 10 bytes over 4 workers: spans 2, 2, 2 and 4.
    let r = chunk_ranges(10, 4);
    assert_eq!(r.len(), 4);
    assert_eq!((r[0].start, r[0].end), (0, 1));
    assert_eq!((r[3].start, r[3].end), (6, 9));
    let total: u64 = (0..4).map(|i| r[i].end - r[i].start + 1).sum();
    assert_eq!(total, 10);
}

#[test]
fn ranges_single_worker() {
    let r = chunk_ranges(5, 1);
    assert_eq!(r.len(), 1);
    assert_eq!((r[0].start, r[0].end), (0, 4));
}
