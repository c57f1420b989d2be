use aviutl_plugin::geometry::{Point, Rect, Size, FrameRate, PixelFormat};

#[test]
fn point_new_is_origin() {
    let p = Point::new();
    assert_eq!(p.x, 0);
    assert_eq!(p.y, 0);
}

#[test]
fn point_clamp_clamps_both_coordinates() {
    let p = Point { x: -5, y: 99 };
    let c = p.clamp(0, 10);
    assert_eq!(c.x, 0);
    assert_eq!(c.y, 10);
    let inside = Point { x: 3, y: 4 }.clamp(0, 10);
    assert_eq!(inside, Point { x: 3, y: 4 });
}

#[test]
fn size_area_multiplies() {
    assert_eq!(Size { width: 4, height: 2 }.area(), 8);
    assert_eq!(Size::new().area(), 0);
}

#[test]
fn rect_edges() {
    let r = Rect {
        size: Size { width: 10, height: 20 },
        point: Point { x: 3, y: -4 },
    };
    assert_eq!(r.left(), 3);
    assert_eq!(r.right(), 13);
    assert_eq!(r.top(), -4);
    assert_eq!(r.bottom(), 16);
}

#[test]
fn frame_rate_holds_exact_rational() {
    let fr = FrameRate { rate: 30000, scale: 1001 };
    assert_eq!(fr.rate, 30000);
    assert_eq!(fr.scale, 1001);
}

#[test]
fn four_code_round_trips() {
    let code = [1u8, 2u8, 3u8, 4u8];
    let f = PixelFormat::from_four_code(code);
    assert_eq!(f.into_four_code(), code);
    let letters = [89u8, 85u8, 89u8, 50u8];
    assert_eq!(PixelFormat::from_four_code(letters).into_four_code(), letters);
}

#[test]
fn four_code_packs_little_endian() {
    let f = PixelFormat::from_four_code([0x59, 0x55, 0x59, 0x32]);
    assert_eq!(f.into_raw(), 0x32595559);
    assert_eq!(PixelFormat::yuy2().into_raw(), 0x32595559);
    assert_eq!(PixelFormat::rgb24().into_raw(), 0);
}

#[test]
fn bytes_per_pixel_for_known_formats() {
    assert_eq!(PixelFormat::rgb24().bytes_per_pixel(), 3);
    assert_eq!(PixelFormat::yuy2().bytes_per_pixel(), 2);
}
