use aviutl_plugin::color::{
    chroma_to_yc, luma_to_yc, yc_row_to_yuy2, yc_to_chroma, yc_to_luma, yc_to_yuy2_group,
    yuy2_group_to_yc, yuy2_row_to_yc,
};
use aviutl_plugin::pixel::PixelYc;

#[test]
fn luma_studio_anchors_are_exact() {
    assert_eq!(luma_to_yc(16), 0);
    assert_eq!(luma_to_yc(235), 4096);
    assert_eq!(luma_to_yc(0), -299);
    assert_eq!(luma_to_yc(100), 1571);
    assert_eq!(yc_to_luma(0), 16);
    assert_eq!(yc_to_luma(4096), 235);
    assert_eq!(yc_to_luma(5000),255);
    assert_eq!(yc_to_luma(-5000), 0);
}

#[test]
fn chroma_studio_anchors_are_exact() {
    assert_eq!(chroma_to_yc(128), 0);
    assert_eq!(chroma_to_yc(240), 2048);
    assert_eq!(chroma_to_yc(16), -2048);
    assert_eq!(yc_to_chroma(0), 128);
    assert_eq!(yc_to_chroma(2048), 240);
    assert_eq!(yc_to_chroma(-2048), 16);
    assert_eq!(yc_to_chroma(30000), 255);
    assert_eq!(yc_to_chroma(-30000), 0);
}

#[test]
fn byte_round_trip_within_one_unit() {
    for b in 16u8..=235u8 {
        let back = yc_to_luma(luma_to_yc(b));
        assert!(back == b || back == b - 1, "luma byte {} came back as {}", b, back);
    }
    for b in 16u8..=240u8 {
        let back = yc_to_chroma(chroma_to_yc(b));
        let diff = (back as i32 - b as i32).abs();
        assert!(diff <= 1, "chroma byte {} came back as {}", b, back);
    }
}

#[test]
fn yc_round_trip_within_one_truncation_step() {
    for b in 16u8..=235u8 {
        let y = luma_to_yc(b);
        let again = luma_to_yc(yc_to_luma(y));
        assert!(y - 19 <= again && again <= y);
    }
    for b in 16u8..=240u8 {
        let c = chroma_to_yc(b);
        let again = chroma_to_yc(yc_to_chroma(c));
        assert!((again as i32 - c as i32).abs() <= 19);
    }
}

#[test]
fn packed_group_shares_chroma() {
    let (p0, p1) = yuy2_group_to_yc([100, 128, 200, 130]);
    assert_eq!(p0, PixelYc { y: 1571, cb: 0, cr: 36 });
    assert_eq!(p1, PixelYc { y: 3441, cb: 0, cr: 36 });
    let packed = yc_to_yuy2_group(p0, p1);
    assert_eq!(packed, [99, 128, 199, 129]);
}

#[test]
fn packed_row_round_trip() {
    let src = [100u8, 128, 200, 130, 16, 128, 235, 128];
    let row = yuy2_row_to_yc(&src, 4);
    assert_eq!(row.len(), 4);
    assert_eq!(row[0].y, 1571);
    assert_eq!(row[1].y, 3441);
    assert_eq!(row[2].y, 0);
    assert_eq!(row[3].y, 4096);
    let back = yc_row_to_yuy2(&row, 4);
    assert_eq!(back.len(), 8);
    for (orig, got) in src.iter().zip(back.iter()) {
        assert!((*orig as i32 - *got as i32).abs() <= 1);
    }
}
