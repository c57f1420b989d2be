use aviutl_plugin::audio::AudioBuffer;
use aviutl_plugin::frame::{Frame, OwnedFrame};
use aviutl_plugin::geometry::Size;
use aviutl_plugin::params::{get_check_value, get_track_value, Control, Track};
use aviutl_plugin::pixel::PixelYc;
use aviutl_plugin::proc::{ProcInfo, ProcInfoFlag};

fn luma_only_frame(size: Size, y: i16) -> OwnedFrame {
    let mut f = OwnedFrame::new(size);
    for i in 0..size.area() {
        f.set_pixel(i, PixelYc { y, cb: 0, cr: 0 });
    }
    f
}

#[test]
fn processing_callback_applies_track_luma_shift() {
    let size = Size { width: 4, height: 2 };
    let mut info = ProcInfo {
        flags: ProcInfoFlag(0),
        yc_p_edit: luma_only_frame(size, 2048),
        yc_p_temp: OwnedFrame::new(size),
        size,
        max_size: size,
        current_frame: 0,
        total_frames: 1,
        original_size: size,
        audio_buffer: AudioBuffer::from_parts(Vec::new(), 1).unwrap(),
    };
    // the host refreshed the track table before the callback
    let tracks = vec![100];
    let shift = get_track_value(&tracks, 0).unwrap();
    assert_eq!(shift, 100);
    for i in 0..size.area() {
        let px = info.yc_p_edit.pixel(i);
        info.yc_p_edit.set_pixel(
            i,
            PixelYc { y: (px.y as i32 + shift) as i16, cb: px.cb, cr: px.cr },
        );
    }
    for i in 0..size.area() {
        let px = info.yc_p_edit.pixel(i);
        assert_eq!(px.y, 2148);
        assert_eq!(px.cb, 0);
        assert_eq!(px.cr, 0);
    }
}

#[test]
fn swap_buffers_exchanges_working_and_scratch() {
    let size = Size { width: 2, height: 1 };
    let mut info = ProcInfo {
        flags: ProcInfoFlag(0),
        yc_p_edit: luma_only_frame(size, 1),
        yc_p_temp: luma_only_frame(size, 2),
        size,
        max_size: size,
        current_frame: 0,
        total_frames: 1,
        original_size: size,
        audio_buffer: AudioBuffer::from_parts(Vec::new(), 1).unwrap(),
    };
    info.swap_buffers();
    assert_eq!(info.yc_p_edit.pixel(0).y, 2);
    assert_eq!(info.yc_p_temp.pixel(0).y, 1);
}

#[test]
fn track_and_check_values_read_the_host_tables() {
    let tracks = vec![10, -3];
    assert_eq!(get_track_value(&tracks, 0), Some(10));
    assert_eq!(get_track_value(&tracks, 1), Some(-3));
    assert_eq!(get_track_value(&tracks, 2), None);
    let checks = vec![0, 1, 5];
    assert_eq!(get_check_value(&checks, 0), Some(false));
    assert_eq!(get_check_value(&checks, 1), Some(true));
    assert_eq!(get_check_value(&checks, 2), Some(true));
    assert_eq!(get_check_value(&checks, 3), None);
}

#[test]
fn descriptor_defaults_match_the_documented_ones() {
    let t = Track::default();
    assert_eq!(t.name, "Untitled");
    assert_eq!(t.default_value, 0);
    assert_eq!(t.min_value, -64);
    assert_eq!(t.max_value, 64);
    let c = Control::default();
    assert_eq!(c.name, "Untitled");
    assert!(!c.default_checked);
    assert!(!c.is_button);
}
