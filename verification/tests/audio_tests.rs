use aviutl_plugin::audio::AudioBuffer;
use aviutl_plugin::info::{vram_bytes_per_pixel, FileId};
use aviutl_plugin::geometry::Size;
use aviutl_plugin::status::{EditFlag, FrameInterlace, FrameStatusType, FileFilterType};

#[test]
fn buffer_construction_checks_shape() {
    assert!(AudioBuffer::from_parts(vec![1, 2, 3], 2).is_none());
    assert!(AudioBuffer::from_parts(vec![1, 2, 3, 4], 0).is_none());
    assert!(AudioBuffer::from_parts(vec![1, 2, 3, 4], 2).is_some());
}

#[test]
fn channels_deinterleave() {
    let b = AudioBuffer::from_parts(vec![1, 2, 3, 4, 5, 6], 2).unwrap();
    assert_eq!(b.channels(), 2);
    assert_eq!(b.samples_per_channel(), 3);
    assert_eq!(b.samples_by_channel(0), vec![1, 3, 5]);
    assert_eq!(b.samples_by_channel(1), vec![2, 4, 6]);
    assert_eq!(b.samples_by_channel(2), Vec::<i16>::new());
    assert_eq!(b.sample(1, 2), 6);
}

#[test]
fn writing_one_sample_leaves_the_rest() {
    let mut b = AudioBuffer::from_parts(vec![1, 2, 3, 4], 2).unwrap();
    b.set_sample(1, 0, 20);
    assert_eq!(b.samples_by_channel(0), vec![1, 3]);
    assert_eq!(b.samples_by_channel(1), vec![20, 4]);
}

#[test]
fn vram_pixel_bytes_divide_the_reported_extent() {
    assert_eq!(vram_bytes_per_pixel(48, Size { width: 4, height: 2 }), 6);
}

#[test]
fn ids_round_trip_their_raw_word() {
    assert_eq!(FileId::from_raw(7).into_raw(), 7);
}

#[test]
fn interlace_modes_round_trip_known_integers() {
    for raw in 0..=5 {
        let mode = FrameInterlace::from_raw(raw).unwrap();
        assert_eq!(mode.into_raw(), raw);
    }
    assert!(FrameInterlace::from_raw(6).is_none());
    assert!(FrameInterlace::from_raw(-1).is_none());
}

#[test]
fn status_table_kinds_have_their_host_integers() {
    assert_eq!(FrameStatusType::EditFlag.into_raw(), 0);
    assert_eq!(FrameStatusType::Interlace.into_raw(), 1);
    assert_eq!(FileFilterType::Video.into_raw(), 0);
    assert_eq!(FileFilterType::Audio.into_raw(), 1);
}

#[test]
fn edit_flag_bit_queries() {
    let f = EditFlag(0b101);
    assert!(f.contains(EditFlag(0b001)));
    assert!(!f.contains(EditFlag(0b010)));
}
