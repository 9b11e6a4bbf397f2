//! Planning of a transfer: the effective worker count and the byte ranges
//! assigned to the chunk workers.
//!
//! A transfer of `size` bytes is split into `count` contiguous ranges.  Every
//! range spans `size / count` bytes except the last, which also absorbs the
//! remainder of the division, so the ranges partition `[0, size)` exactly.

use vstd::prelude::*;

verus! {

use vstd::arithmetic::div_mod::lemma_fundamental_div_mod;
use vstd::arithmetic::div_mod::lemma_remainder_lower;
use vstd::arithmetic::div_mod::lemma_remainder_upper;

/// `clamp(requested, 1, size / block)`: at least one worker, and never more
/// workers than there are `block`-sized pieces in the file.
pub open spec fn spec_effective_task_count(task_count: int, size: int, block: int) -> int {
    let pieces = size / block;
    let capped = if task_count <= pieces {
        task_count
    } else {
        pieces
    };
    if capped >= 1 {
        capped
    } else {
        1
    }
}

/// Computes the number of chunk workers actually spawned for a transfer of
/// `size` bytes when the caller requested `task_count` workers with a minimum
/// chunk granularity of `block` bytes.
pub fn effective_task_count(task_count: u64, size: u64, block: u64) -> (r: u64)
    requires
        block >= 1,
    ensures
        r == spec_effective_task_count(task_count as int, size as int, block as int),
{
    let pieces: u64 = size / block;
    let capped: u64 = if task_count <= pieces {
        task_count
    } else {
        pieces
    };
    if capped >= 1 {
        capped
    } else {
        1
    }
}

/// The effective worker count lies in `[1, max(1, size / block)]` and never
/// exceeds the requested count.
pub proof fn lemma_effective_task_count_bounds(task_count: int, size: int, block: int)
    requires
        task_count >= 1,
        size >= 0,
        block >= 1,
    ensures
        1 <= spec_effective_task_count(task_count, size, block),
        spec_effective_task_count(task_count, size, block) <= task_count,
        spec_effective_task_count(task_count, size, block) <= if size / block >= 1 {
            size / block
        } else {
            1
        },
{
    lemma_fundamental_div_mod(size, block);
    lemma_remainder_upper(size, block);
}

/// For a non-empty file the effective worker count never exceeds the file
/// size, so every worker owns at least one byte.
pub proof fn lemma_effective_task_count_le_size(task_count: int, size: int, block: int)
    requires
        size >= 1,
        block >= 1,
    ensures
        1 <= spec_effective_task_count(task_count, size, block) <= size,
{
    lemma_fundamental_div_mod(size, block);
    lemma_remainder_lower(size, block);
    assert(block * (size / block) >= 1 * (size / block)) by (nonlinear_arith)
        requires
            block >= 1,
            size / block >= 0,
    ;
}

/// One contiguous byte range of the target file, both bounds inclusive,
/// assigned to exactly one chunk worker.
#[derive(Clone, Copy, Debug, PartialEq, Eq, Structural)]
pub struct ChunkRange {
    pub start: u64,
    pub end: u64,
}

/// First byte of chunk `i` when `size` bytes are split into `count` ranges.
pub open spec fn spec_chunk_start(size: int, count: int, i: int) -> int {
    i * (size / count)
}

/// Last byte of chunk `i`: all chunks span `size / count` bytes, except the
/// last, which runs to the end of the file and so absorbs the remainder.
pub open spec fn spec_chunk_end(size: int, count: int, i: int) -> int {
    if i == count - 1 {
        size - 1
    } else {
        (i + 1) * (size / count) - 1
    }
}

/// Sum of the spans of the first `k` chunk ranges.
pub open spec fn spec_total_span(size: int, count: int, k: int) -> int
    decreases k,
{
    if k <= 0 {
        0
    } else {
        spec_total_span(size, count, k - 1) + (spec_chunk_end(size, count, k - 1)
            - spec_chunk_start(size, count, k - 1) + 1)
    }
}

/// The chunk ranges partition `[0, size)` exactly: the first range starts at
/// byte zero, consecutive ranges are contiguous, every range is non-empty,
/// the last range ends at the last byte, and the spans sum to `size`.
pub proof fn lemma_chunk_ranges_partition(size: int, count: int)
    requires
        1 <= count <= size,
    ensures
        spec_chunk_start(size, count, 0) == 0,
        spec_chunk_end(size, count, count - 1) == size - 1,
        forall|i: int|
            0 <= i < count - 1 ==> spec_chunk_end(size, count, i) + 1 == spec_chunk_start(
                size,
                count,
                i + 1,
            ),
        forall|i: int|
            0 <= i < count ==> spec_chunk_start(size, count, i) <= spec_chunk_end(size, count, i),
        spec_total_span(size, count, count) == size,
{
    let q = size / count;
    lemma_chunk_bounds(size, count);
    assert forall|i: int| 0 <= i < count implies spec_chunk_start(size, count, i)
        <= spec_chunk_end(size, count, i) by {
        lemma_chunk_nonempty(size, count, i);
    }
    lemma_total_span_telescopes(size, count, count);
}

/// For every non-empty size and every requested task count, the ranges the
/// plan computes partition `[0, size)` exactly: the effective count is a
/// valid team size, the first range starts at byte zero, consecutive ranges
/// are contiguous, every range is non-empty, the last ends at the last
/// byte, and the spans sum to `size`.  (A size-zero transfer plans no
/// ranges at all.)
pub proof fn lemma_plan_partitions(task_count: int, size: int, block: int)
    requires
        size >= 1,
        block >= 1,
    ensures
        ({
            let count = spec_effective_task_count(task_count, size, block);
            &&& 1 <= count <= size
            &&& spec_chunk_start(size, count, 0) == 0
            &&& spec_chunk_end(size, count, count - 1) == size - 1
            &&& forall|i: int|
                0 <= i < count - 1 ==> spec_chunk_end(size, count, i) + 1 == spec_chunk_start(
                    size,
                    count,
                    i + 1,
                )
            &&& forall|i: int|
                0 <= i < count ==> spec_chunk_start(size, count, i) <= spec_chunk_end(
                    size,
                    count,
                    i,
                )
            &&& spec_total_span(size, count, count) == size
        }),
{
    lemma_effective_task_count_le_size(task_count, size, block);
    lemma_chunk_ranges_partition(size, spec_effective_task_count(task_count, size, block));
}

/// Basic facts about the per-chunk span `size / count` used throughout:
/// it is at least one byte and `count` spans fit within `size`.
proof fn lemma_chunk_bounds(size: int, count: int)
    requires
        1 <= count <= size,
    ensures
        size / count >= 1,
        count * (size / count) <= size,
{
    lemma_fundamental_div_mod(size, count);
    lemma_remainder_lower(size, count);
    lemma_remainder_upper(size, count);
    assert(size / count >= 1) by (nonlinear_arith)
        requires
            count * (size / count) > size - count,
            count >= 1,
            size >= count,
            size / count >= 0,
    ;
}

/// Every chunk covers at least one byte and ends inside the file.
pub proof fn lemma_chunk_nonempty(size: int, count: int, i: int)
    requires
        1 <= count <= size,
        0 <= i < count,
    ensures
        spec_chunk_start(size, count, i) <= spec_chunk_end(size, count, i),
        spec_chunk_end(size, count, i) < size,
{
    let q = size / count;
    lemma_chunk_bounds(size, count);
    if i == count - 1 {
        assert((count - 1) * q <= count * q - q) by (nonlinear_arith)
            requires
                q >= 1,
        ;
    } else {
        assert(i * q <= (i + 1) * q - q) by (nonlinear_arith)
            requires
                q >= 1,
        ;
        assert((i + 1) * q <= count * q) by (nonlinear_arith)
            requires
                q >= 1,
                i + 1 <= count,
        ;
    }
}

/// The spans of the first `k` chunks sum to the first byte after chunk
/// `k - 1`, so all `count` spans sum to exactly `size`.
proof fn lemma_total_span_telescopes(size: int, count: int, k: int)
    requires
        1 <= count <= size,
        1 <= k <= count,
    ensures
        spec_total_span(size, count, k) == spec_chunk_end(size, count, k - 1) + 1,
    decreases k,
{
    if k == 1 {
        reveal_with_fuel(spec_total_span, 2);
    } else {
        lemma_total_span_telescopes(size, count, k - 1);
        let q = size / count;
        assert(spec_chunk_end(size, count, k - 2) + 1 == spec_chunk_start(size, count, k - 1)) by {
            assert((k - 2 + 1) * q == (k - 1) * q) by (nonlinear_arith);
        }
    }
}

/// Computes the chunk ranges for a transfer of `size` bytes split across
/// `count` workers.
pub fn chunk_ranges(size: u64, count: u64) -> (r: Vec<ChunkRange>)
    requires
        1 <= count <= size,
    ensures
        r.len() == count,
        forall|i: int|
            0 <= i < count ==> #[trigger] r[i].start == spec_chunk_start(
                size as int,
                count as int,
                i,
            ),
        forall|i: int|
            0 <= i < count ==> #[trigger] r[i].end == spec_chunk_end(size as int, count as int, i),
{
    let q: u64 = size / count;
    proof {
        lemma_chunk_bounds(size as int, count as int);
    }
    let mut r: Vec<ChunkRange> = Vec::new();
    for i in 0..count
        invariant
            1 <= count <= size,
            q == size as int / count as int,
            r.len() == i,
            forall|j: int|
                0 <= j < i ==> #[trigger] r[j].start == spec_chunk_start(
                    size as int,
                    count as int,
                    j,
                ),
            forall|j: int|
                0 <= j < i ==> #[trigger] r[j].end == spec_chunk_end(size as int, count as int, j),
    {
        proof {
            lemma_chunk_bounds(size as int, count as int);
            lemma_chunk_nonempty(size as int, count as int, i as int);
            assert((i as int + 1) * (q as int) == (i as int) * (q as int) + q as int)
                by (nonlinear_arith);
        }
        let start: u64 = i * q;
        let end: u64 = if i == count - 1 {
            size - 1
        } else {
            start + (q - 1)
        };
        r.push(ChunkRange { start, end });
    }
    r
}

} // verus!
