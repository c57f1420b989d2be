//! The multi-thread callback bridge's checkable half: how a buffer of rows
//! is partitioned across the host's worker threads, and how the host's
//! dispatch verdict is mapped to a typed result.
//!
//! The host owns the thread pool; the plugin only hands it a callback that
//! is invoked once per worker as `(thread_id, thread_count)`. Each worker
//! must confine itself to the row range computed here, so that no two
//! workers ever write the same sample.

use vstd::prelude::*;
use crate::AviUtlError;

verus! {

/// The first row of the range assigned to a worker.
pub open spec fn worker_rows_start(height: int, thread_id: int, thread_count: int) -> int
    recommends
        thread_count >= 1,
{
    height * thread_id / thread_count
}

/// One past the last row of the range assigned to a worker.
pub open spec fn worker_rows_end(height: int, thread_id: int, thread_count: int) -> int
    recommends
        thread_count >= 1,
{
    height * (thread_id + 1) / thread_count
}

/// The row range `[height*id/count, height*(id+1)/count)` a worker with the
/// given id must confine itself to.
pub fn thread_rows(height: u32, thread_id: usize, thread_count: usize) -> (r: (usize, usize))
    requires
        1 <= thread_count <= u32::MAX,
        thread_id < thread_count,
    ensures
        r.0 == worker_rows_start(height as int, thread_id as int, thread_count as int),
        r.1 == worker_rows_end(height as int, thread_id as int, thread_count as int),
        r.0 <= r.1 <= height,
{
    proof {
        lemma_worker_rows_bounds(height as int, thread_id as int, thread_count as int);
        vstd::arithmetic::mul::lemma_mul_upper_bound(
            height as int,
            u32::MAX as int,
            (thread_id + 1) as int,
            u32::MAX as int,
        );
        vstd::arithmetic::mul::lemma_mul_upper_bound(
            height as int,
            u32::MAX as int,
            thread_id as int,
            u32::MAX as int,
        );
        vstd::arithmetic::mul::lemma_mul_nonnegative(height as int, thread_id as int);
    }
    let start = ((height as u64 * thread_id as u64) / thread_count as u64) as usize;
    let end = ((height as u64 * (thread_id as u64 + 1)) / thread_count as u64) as usize;
    (start, end)
}

/// A worker's row range sits inside `[0, height]` and does not shrink as the
/// id grows.
pub proof fn lemma_worker_rows_bounds(height: int, thread_id: int, thread_count: int)
    requires
        height >= 0,
        thread_count >= 1,
        0 <= thread_id < thread_count,
    ensures
        0 <= worker_rows_start(height, thread_id, thread_count),
        worker_rows_start(height, thread_id, thread_count) <= worker_rows_end(
            height,
            thread_id,
            thread_count,
        ),
        worker_rows_end(height, thread_id, thread_count) <= height,
{
    vstd::arithmetic::mul::lemma_mul_nonnegative(height, thread_id);
    assert(height * thread_id <= height * (thread_id + 1) && height * (thread_id + 1) <= height
        * thread_count) by (nonlinear_arith)
        requires
            height >= 0,
            thread_id + 1 <= thread_count,
    ;
    vstd::arithmetic::div_mod::lemma_div_is_ordered(
        height * thread_id,
        height * (thread_id + 1),
        thread_count,
    );
    vstd::arithmetic::div_mod::lemma_div_is_ordered(
        height * (thread_id + 1),
        height * thread_count,
        thread_count,
    );
    vstd::arithmetic::div_mod::lemma_div_multiples_vanish(height, thread_count);
    assert(height * thread_count == thread_count * height) by (nonlinear_arith);
}

/// Two distinct workers get disjoint row ranges: the whole range of the
/// lower id ends before the range of the higher id begins.
pub proof fn lemma_worker_rows_disjoint(height: int, count: int, id_a: int, id_b: int)
    requires
        height >= 0,
        count >= 1,
        0 <= id_a < id_b < count,
    ensures
        worker_rows_end(height, id_a, count) <= worker_rows_start(height, id_b, count),
{
    assert(height * (id_a + 1) <= height * id_b) by (nonlinear_arith)
        requires
            height >= 0,
            id_a + 1 <= id_b,
    ;
    vstd::arithmetic::div_mod::lemma_div_is_ordered(
        height * (id_a + 1),
        height * id_b,
        count,
    );
}

/// Consecutive workers' ranges are adjacent, the first range starts at row
/// zero, and the last range ends at `height`: together with disjointness,
/// the ranges tile `[0, height)` exactly.
pub proof fn lemma_worker_rows_tile(height: int, count: int)
    requires
        height >= 0,
        count >= 1,
    ensures
        worker_rows_start(height, 0, count) == 0,
        worker_rows_end(height, count - 1, count) == height,
        forall|id: int|
            0 <= id < count - 1 ==> worker_rows_end(height, id, count) == worker_rows_start(
                height,
                id + 1,
                count,
            ),
{
    assert(height * 0 == 0) by (nonlinear_arith);
    vstd::arithmetic::div_mod::lemma_div_multiples_vanish(height, count);
    assert(height * count == count * height) by (nonlinear_arith);
}

/// Every row below `height` falls in the range of some worker: the union of
/// the ranges covers `[0, height)`.
pub proof fn lemma_worker_rows_cover(height: int, count: int, row: int)
    requires
        height >= 0,
        count >= 1,
        0 <= row < height,
    ensures
        exists|id: int|
            0 <= id < count && #[trigger] worker_rows_start(height, id, count) <= row
                < worker_rows_end(height, id, count),
{
    lemma_worker_rows_cover_from(height, count, row, 0);
}

proof fn lemma_worker_rows_cover_from(height: int, count: int, row: int, id: int)
    requires
        height >= 0,
        count >= 1,
        0 <= id < count,
        worker_rows_start(height, id, count) <= row < height,
    ensures
        exists|j: int|
            id <= j < count && #[trigger] worker_rows_start(height, j, count) <= row
                < worker_rows_end(height, j, count),
    decreases count - id,
{
    if row < worker_rows_end(height, id, count) {
        assert(worker_rows_start(height, id, count) <= row < worker_rows_end(height, id, count));
    } else {
        lemma_worker_rows_tile(height, count);
        if id == count - 1 {
            assert(false);
        } else {
            assert(worker_rows_end(height, id, count) == worker_rows_start(height, id + 1, count));
            lemma_worker_rows_cover_from(height, count, row, id + 1);
        }
    }
}

/// Maps the host's answer to a thread-pool dispatch: zero means the host
/// refused it (the callback need not have started at all), anything else
/// means it accepted.
pub fn multi_thread_dispatch_result(status: i32) -> (r: Result<(), AviUtlError>)
    ensures
        r == if status == 0 {
            Err::<(), AviUtlError>(AviUtlError::ThreadExecutionFailure)
        } else {
            Ok::<(), AviUtlError>(())
        },
{
    if status == 0 {
        Err(AviUtlError::ThreadExecutionFailure)
    } else {
        Ok(())
    }
}

} // verus!
