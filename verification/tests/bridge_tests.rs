use aviutl_plugin::bridge::{multi_thread_dispatch_result, thread_rows};
use aviutl_plugin::AviUtlError;

#[test]
fn worker_ranges_tile_the_rows_exactly() {
    for &count in &[1usize, 2, 4, 8] {
        for &height in &[1u32, 7, 8, 100, 1080] {
            let mut covered = vec![0u32; height as usize];
            let mut prev_end = 0usize;
            for id in 0..count {
                let (start, end) = thread_rows(height, id, count);
                // adjacent: each range begins where the previous ended
                assert_eq!(start, prev_end);
                assert!(end <= height as usize);
                for row in start..end {
                    covered[row] += 1;
                }
                prev_end = end;
            }
            assert_eq!(prev_end, height as usize);
            // pairwise disjoint and together exhaustive: every row exactly once
            assert!(covered.iter().all(|&c| c == 1));
        }
    }
}

#[test]
fn worker_range_formula_is_the_documented_one() {
    let (s, e) = thread_rows(10, 1, 4);
    assert_eq!((s, e), (2, 5));
    let (s, e) = thread_rows(10, 3, 4);
    assert_eq!((s, e), (7, 10));
    let (s, e) = thread_rows(5, 0, 8);
    assert_eq!((s, e), (0, 0));
}

#[test]
fn dispatch_answer_maps_zero_to_failure() {
    assert!(matches!(
        multi_thread_dispatch_result(0),
        Err(AviUtlError::ThreadExecutionFailure)
    ));
    assert!(matches!(multi_thread_dispatch_result(1), Ok(())));
    assert!(matches!(multi_thread_dispatch_result(-1), Ok(())));
}
