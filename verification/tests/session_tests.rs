use aviutl_plugin::geometry::Size;
use aviutl_plugin::session::{
    check_capacity, dib_frame_plan, require_buffer_written, require_config_applied,
    require_file_accepted, require_frame_in_range, require_frame_pointer, require_host_success,
    require_load_accepted, require_window_updated, resolve_selected_range, FrameBound,
};
use aviutl_plugin::AviUtlError;

#[test]
fn undersized_buffer_is_refused_and_never_written() {
    let buf = vec![0u8; 5];
    // The accessor pattern: check first, write only on success.
    let verdict = check_capacity(10, buf.len());
    assert!(matches!(verdict, Err(AviUtlError::BufferLimitExceed)));
    // Nothing was written into the undersized buffer.
    assert!(buf.iter().all(|&b| b == 0));
    assert!(matches!(check_capacity(5, 5), Ok(())));
    assert!(matches!(check_capacity(0, 0), Ok(())));
}

#[test]
fn dib_plan_computes_required_bytes() {
    let size = Size { width: 2, height: 2 };
    assert!(matches!(dib_frame_plan(size, 3, 11), Err(AviUtlError::BufferLimitExceed)));
    assert!(matches!(dib_frame_plan(size, 3, 12), Ok(12)));
    assert!(matches!(dib_frame_plan(size, 3, 100), Ok(12)));
}

#[test]
fn each_host_verdict_maps_to_its_error() {
    assert!(matches!(
        require_host_success(0, "feature"),
        Err(AviUtlError::Unsupported("feature"))
    ));
    assert!(matches!(require_host_success(1, "feature"), Ok(())));
    assert!(matches!(
        require_frame_in_range(0, 42),
        Err(AviUtlError::FrameIndexOutOfRange(42))
    ));
    assert!(matches!(require_frame_in_range(7, 42), Ok(())));
    assert!(matches!(
        require_frame_pointer(true, 3),
        Err(AviUtlError::FrameIndexOutOfRange(3))
    ));
    assert!(matches!(require_frame_pointer(false, 3), Ok(())));
    assert!(matches!(
        require_config_applied(0, "profile"),
        Err(AviUtlError::ConfigFailure("profile"))
    ));
    assert!(matches!(
        require_file_accepted(0, "clip"),
        Err(AviUtlError::File("clip"))
    ));
    assert!(matches!(
        require_load_accepted(0, "settings"),
        Err(AviUtlError::Load("settings"))
    ));
    assert!(matches!(
        require_window_updated(0),
        Err(AviUtlError::FailedUpdateMainWindow)
    ));
    assert!(matches!(require_window_updated(2), Ok(())));
}

#[test]
fn remaining_error_kinds_exist() {
    assert!(matches!(AviUtlError::Save("x"), AviUtlError::Save("x")));
    assert!(matches!(AviUtlError::InvalidPath("y"), AviUtlError::InvalidPath("y")));
}

#[test]
fn selection_bounds_resolve_like_the_host_expects() {
    assert_eq!(
        resolve_selected_range(FrameBound::Included(2), FrameBound::Excluded(5), 10),
        (2, 4)
    );
    assert_eq!(
        resolve_selected_range(FrameBound::Unbounded, FrameBound::Unbounded, 7),
        (0, 7)
    );
    // an excluded start equal to the length stays put
    assert_eq!(
        resolve_selected_range(FrameBound::Excluded(7), FrameBound::Excluded(0), 7),
        (7, 0)
    );
    assert_eq!(
        resolve_selected_range(FrameBound::Excluded(3), FrameBound::Included(9), 7),
        (4, 9)
    );
}

#[test]
fn error_messages_name_the_failure() {
    assert_eq!(AviUtlError::BufferLimitExceed.message(), "buffer limit exceeded in AviUtl");
    assert_eq!(AviUtlError::ConfigFailure("profile").message(), "failed to configure profile");
    assert_eq!(AviUtlError::Unsupported("undo").message(), "unsupported feature: undo");
    assert_eq!(AviUtlError::FrameIndexOutOfRange(9).message(), "frame index out of range");
}

#[test]
fn buffer_fill_answer_maps_zero_to_capacity_error() {
    assert!(matches!(require_buffer_written(0), Err(AviUtlError::BufferLimitExceed)));
    assert!(matches!(require_buffer_written(1), Ok(())));
}
