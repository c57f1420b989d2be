use aviutl_plugin::geometry::Point;
use aviutl_plugin::message::{KeyCode, WindowMessage};
use aviutl_plugin::status::{FilterUpdateStatus, UpdateStatus};

#[test]
fn unknown_code_decodes_to_fallback_with_triple_unchanged() {
    let m = WindowMessage::from(9999, 5, 7);
    assert_eq!(m, WindowMessage::System { original: 9999, wparam: 5, lparam: 7 });
    let m2 = WindowMessage::from(0, usize::MAX, -1);
    assert_eq!(m2, WindowMessage::System { original: 0, wparam: usize::MAX, lparam: -1 });
    // just outside both recognized bands
    let m3 = WindowMessage::from(1024 + 115, 1, 2);
    assert_eq!(m3, WindowMessage::System { original: 1139, wparam: 1, lparam: 2 });
    let m4 = WindowMessage::from(1024 + 131, 1, 2);
    assert_eq!(m4, WindowMessage::System { original: 1155, wparam: 1, lparam: 2 });
}

#[test]
fn plain_codes_decode_to_their_events() {
    assert_eq!(WindowMessage::from(1124, 0, 0), WindowMessage::Update);
    assert_eq!(WindowMessage::from(1125, 0, 0), WindowMessage::FileOpen);
    assert_eq!(WindowMessage::from(1126, 0, 0), WindowMessage::FileClose);
    assert_eq!(WindowMessage::from(1127, 0, 0), WindowMessage::Init);
    assert_eq!(WindowMessage::from(1128, 0, 0), WindowMessage::Exit);
    assert_eq!(WindowMessage::from(1129, 0, 0), WindowMessage::SaveStart);
    assert_eq!(WindowMessage::from(1130, 0, 0), WindowMessage::SaveEnd);
    assert_eq!(WindowMessage::from(1131, 0, 0), WindowMessage::Import);
    assert_eq!(WindowMessage::from(1132, 0, 0), WindowMessage::Export);
    assert_eq!(WindowMessage::from(1133, 0, 0), WindowMessage::ChangeActive);
    assert_eq!(WindowMessage::from(1134, 0, 0), WindowMessage::ChangeWindow);
    assert_eq!(WindowMessage::from(1135, 0, 0), WindowMessage::ChangeParam);
    assert_eq!(WindowMessage::from(1136, 0, 0), WindowMessage::ChangeEdit);
    assert_eq!(WindowMessage::from(1138, 0, 0), WindowMessage::FileUpdate);
}

#[test]
fn mouse_coordinates_sign_extend_and_re_encode() {
    // x = 3 in the low word, y = -2 in the high word
    let lparam = (3isize) | (((-2i32 as u32 as isize) & 0xFFFF) << 16);
    let m = WindowMessage::from(1144, 0, lparam);
    match m {
        WindowMessage::MainMouseDown { coordinate } => {
            assert_eq!(coordinate, Point { x: 3, y: -2 });
            // re-encoding the payload recovers the original word
            let packed = ((coordinate.x as u32) & 0xFFFF) as isize
                | ((((coordinate.y as u32) & 0xFFFF) as isize) << 16);
            assert_eq!(packed, lparam);
        }
        other => panic!("wrong decode: {:?}", other),
    }
    assert_eq!(
        WindowMessage::from(1145, 0, 0x0002_0001),
        WindowMessage::MainMouseUp { coordinate: Point { x: 1, y: 2 } }
    );
    assert_eq!(
        WindowMessage::from(1146, 0, 0),
        WindowMessage::MainMouseMove { coordinate: Point { x: 0, y: 0 } }
    );
    assert!(matches!(
        WindowMessage::from(1150, 0, 5),
        WindowMessage::MainMouseDoubleClick { .. }
    ));
    assert!(matches!(
        WindowMessage::from(1151, 0, 5),
        WindowMessage::MainMouseRightDown { .. }
    ));
    assert!(matches!(
        WindowMessage::from(1152, 0, 5),
        WindowMessage::MainMouseRightUp { .. }
    ));
    assert!(matches!(
        WindowMessage::from(1154, 0, 5),
        WindowMessage::MainContextMenu { .. }
    ));
}

#[test]
fn key_codes_take_the_low_byte() {
    assert_eq!(
        WindowMessage::from(1147, 0x141, 0),
        WindowMessage::MainKeyDown { key_code: KeyCode(0x41) }
    );
    assert_eq!(
        WindowMessage::from(1148, 0x7A, 0),
        WindowMessage::MainKeyUp { key_code: KeyCode(0x7A) }
    );
}

#[test]
fn wheel_amount_is_signed_high_word() {
    let wparam = 0xFF38_0000usize; // -200 in the high word
    assert_eq!(
        WindowMessage::from(1153, wparam, 0),
        WindowMessage::MainMouseWheel { amount: -200 }
    );
    assert_eq!(
        WindowMessage::from(1153, 0x0078_0000, 0),
        WindowMessage::MainMouseWheel { amount: 120 }
    );
}

#[test]
fn move_size_carries_the_raw_handle_word() {
    assert_eq!(WindowMessage::from(1149, 0, 777), WindowMessage::MainMoveSize { window: 777 });
}

#[test]
fn command_index_subtracts_the_button_offset() {
    assert_eq!(WindowMessage::from(1137, 12010, 0), WindowMessage::Command { index: 6 });
    assert_eq!(WindowMessage::from(1137, 12004, 0), WindowMessage::Command { index: 0 });
    // Below the offset the index wraps in 32-bit arithmetic rather than trapping.
    assert_eq!(
        WindowMessage::from(1137, 12000, 0),
        WindowMessage::Command { index: 0xFFFF_FFFC }
    );
}

#[test]
fn update_status_decodes_zero_track_and_check_words() {
    assert_eq!(UpdateStatus::from_raw(FilterUpdateStatus(0)), UpdateStatus::All);
    assert_eq!(
        UpdateStatus::from_raw(FilterUpdateStatus(0x10005)),
        UpdateStatus::Track { index: 5 }
    );
    assert_eq!(
        UpdateStatus::from_raw(FilterUpdateStatus(0x20007)),
        UpdateStatus::CheckboxOrButton { index: 7 }
    );
}

#[test]
fn update_word_bit_queries() {
    let w = FilterUpdateStatus(0x10042);
    assert!(w.is_track());
    assert!(!w.is_check());
    assert_eq!(w.lower_bits(), 0x42);
}
