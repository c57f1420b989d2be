use aviutl_plugin::frame::{frame_line, split_at_y, BorrowedMutFrame, Frame, OwnedFrame};
use aviutl_plugin::geometry::Size;
use aviutl_plugin::pixel::PixelYc;

fn px(y: i16) -> PixelYc {
    PixelYc { y, cb: 0, cr: 0 }
}

#[test]
fn new_frame_is_zeroed_and_sized() {
    let f = OwnedFrame::new(Size { width: 4, height: 3 });
    assert_eq!(f.frame_size(), Size { width: 4, height: 3 });
    assert_eq!(f.image().len(), 12);
    assert!(f.image().iter().all(|p| *p == PixelYc { y: 0, cb: 0, cr: 0 }));
}

#[test]
fn split_counts_add_up_to_area() {
    let mut f = OwnedFrame::new(Size { width: 4, height: 3 });
    let (top, bottom) = split_at_y(&mut f, 1);
    assert_eq!(top.frame_size(), Size { width: 4, height: 1 });
    assert_eq!(bottom.frame_size(), Size { width: 4, height: 2 });
    assert_eq!(top.image().len() + bottom.image().len(), 12);
}

#[test]
fn split_views_do_not_alias() {
    let mut f = OwnedFrame::new(Size { width: 4, height: 3 });
    for i in 0..12 {
        f.set_pixel(i, px(i as i16));
    }
    {
        let (mut top, mut bottom) = split_at_y(&mut f, 2);
        // Writing the whole top view leaves every bottom sample untouched.
        for i in 0..8 {
            top.set_pixel(i, px(100));
        }
        for i in 0..4 {
            assert_eq!(bottom.pixel(i), px((8 + i) as i16));
        }
        // And writing the bottom leaves the top untouched.
        for i in 0..4 {
            bottom.set_pixel(i, px(200));
        }
        for i in 0..8 {
            assert_eq!(top.pixel(i), px(100));
        }
    }
    // The parent frame is exactly the final top followed by the final bottom.
    for i in 0..8 {
        assert_eq!(f.pixel(i), px(100));
    }
    for i in 8..12 {
        assert_eq!(f.pixel(i), px(200));
    }
}

#[test]
fn split_at_zero_gives_empty_top() {
    let mut f = OwnedFrame::new(Size { width: 4, height: 2 });
    let (top, bottom) = split_at_y(&mut f, 0);
    assert_eq!(top.image().len(), 0);
    assert_eq!(bottom.image().len(), 8);
}

#[test]
fn borrow_mut_views_whole_frame() {
    let mut f = OwnedFrame::new(Size { width: 2, height: 2 });
    {
        let mut view = f.borrow_mut();
        view.set_pixel(3, px(7));
    }
    assert_eq!(f.pixel(3), px(7));
}

#[test]
fn borrowed_view_requires_exact_extent() {
    let mut samples = vec![PixelYc { y: 0, cb: 0, cr: 0 }; 5];
    assert!(BorrowedMutFrame::from_parts(&mut samples, Size { width: 2, height: 2 }).is_none());
    let mut exact = vec![PixelYc { y: 0, cb: 0, cr: 0 }; 4];
    assert!(BorrowedMutFrame::from_parts(&mut exact, Size { width: 2, height: 2 }).is_some());
}

#[test]
fn line_views_one_row() {
    let mut f = OwnedFrame::new(Size { width: 3, height: 2 });
    for i in 0..6 {
        f.set_pixel(i, px(i as i16));
    }
    let row0: Vec<i16> = frame_line(&f, 0).iter().map(|p| p.y).collect();
    let row1: Vec<i16> = frame_line(&f, 1).iter().map(|p| p.y).collect();
    assert_eq!(row0, vec![0, 1, 2]);
    assert_eq!(row1, vec![3, 4, 5]);
}
