//! The frame model: a dense row-major grid of luma/chroma samples, owned or
//! borrowed from the host, with a verified row split for tiled work.
//!
//! A borrowed frame is a view over memory the host lent for one call. It is
//! built once from the exact extent the host reported and can never be
//! resized afterwards, so the view cannot outgrow the host's buffer.

use vstd::prelude::*;
use crate::geometry::Size;
use crate::pixel::PixelYc;

verus! {

/// A sample grid is well formed when it holds exactly `width * height`
/// samples and that count fits the machine.
pub open spec fn grid_wf(pixels: Seq<PixelYc>, size: Size) -> bool {
    &&& pixels.len() == size.width as int * size.height as int
    &&& size.width as int * size.height as int <= usize::MAX
}

/// Splits a row-major grid of `height` rows of `width` samples into the rows
/// `[0, y)` and the rows `[y, height)`, as two non-overlapping mutable
/// views. Writes through one view are never visible through the other: the
/// grid afterwards is exactly the final top view followed by the final
/// bottom view.
pub fn split_rows<'s>(
    image: &'s mut [PixelYc],
    width: u32,
    height: u32,
    y: usize,
) -> (r: (&'s mut [PixelYc], &'s mut [PixelYc]))
    requires
        old(image)@.len() == width as int * height as int,
        width as int * height as int <= usize::MAX,
        y < height,
    ensures
        r.0@ == old(image)@.subrange(0, y as int * width as int),
        r.1@ == old(image)@.subrange(y as int * width as int, old(image)@.len() as int),
        r.0@.len() == y as int * width as int,
        r.1@.len() == (height - y) as int * width as int,
        r.0@.len() + r.1@.len() == width as int * height as int,
        final(image)@ == final(r.0)@ + final(r.1)@,
{
    proof {
        lemma_row_prefix_bound(width as int, height as int, y as int);
        vstd::arithmetic::mul::lemma_mul_is_commutative(width as int, height as int);
        vstd::arithmetic::mul::lemma_mul_is_commutative(width as int, y as int);
        vstd::arithmetic::mul::lemma_mul_is_commutative(width as int, (height - y) as int);
    }
    let pos: usize = y * (width as usize);
    image.split_at_mut(pos)
}

/// For `y < height`, the first `y` rows hold `y * width` samples, no more
/// than the whole grid, and the remaining rows hold the rest.
pub proof fn lemma_row_prefix_bound(width: int, height: int, y: int)
    requires
        0 <= width,
        0 <= y < height,
    ensures
        0 <= y * width <= height * width,
        y * width + (height - y) * width == height * width,
{
    assert(y * width <= height * width && y * width + (height - y) * width == height * width)
        by (nonlinear_arith)
        requires
            0 <= width,
            0 <= y < height,
    ;
}

/// Whatever is written through the top view of a split, every sample seen
/// through the bottom view keeps its place and value in the reassembled
/// grid, and the two views never overlap.
pub proof fn lemma_split_views_disjoint(top: Seq<PixelYc>, bottom: Seq<PixelYc>, new_top: Seq<PixelYc>)
    requires
        new_top.len() == top.len(),
    ensures
        forall|i: int|
            0 <= i < bottom.len() ==> (new_top + bottom)[top.len() + i] == bottom[i],
        forall|i: int| 0 <= i < new_top.len() ==> (new_top + bottom)[i] == new_top[i],
{
}

/// Anything that exposes a rectangular grid of luma/chroma samples.
pub trait Frame: Sized {
    /// The samples, row-major.
    spec fn pixels(&self) -> Seq<PixelYc>;

    /// The grid extent.
    spec fn dims(&self) -> Size;

    /// The extent of the grid.
    fn frame_size(&self) -> (s: Size)
        ensures
            s == self.dims(),
    ;

    /// The samples as one row-major slice of length `width * height`.
    fn image(&self) -> (r: &[PixelYc])
        requires
            grid_wf(self.pixels(), self.dims()),
        ensures
            r@ == self.pixels(),
    ;

    /// The samples as one mutable row-major slice.
    fn image_mut(&mut self) -> (r: &mut [PixelYc])
        requires
            grid_wf(old(self).pixels(), old(self).dims()),
        ensures
            r@ == old(self).pixels(),
            final(self).pixels() == final(r)@,
            final(self).dims() == old(self).dims(),
    ;

}

/// Splits a frame at row `y` into two independent mutable views: the rows
/// `[0, y)` and the rows `[y, height)`. The two views never alias, and the
/// frame afterwards is exactly the final top view followed by the final
/// bottom view.
pub fn split_at_y<'s, F: Frame>(frame: &'s mut F, y: usize) -> (r: (
    BorrowedMutFrame<'s>,
    BorrowedMutFrame<'s>,
))
    requires
        grid_wf(old(frame).pixels(), old(frame).dims()),
        y < old(frame).dims().height,
    ensures
        r.0.wf() && r.1.wf(),
        r.0.dims() == (Size { width: old(frame).dims().width, height: y as u32 }),
        r.1.dims() == (Size {
            width: old(frame).dims().width,
            height: (old(frame).dims().height - y) as u32,
        }),
        r.0.pixels() == old(frame).pixels().subrange(
            0,
            y as int * old(frame).dims().width as int,
        ),
        r.1.pixels() == old(frame).pixels().subrange(
            y as int * old(frame).dims().width as int,
            old(frame).pixels().len() as int,
        ),
        r.0.pixels().len() + r.1.pixels().len() == old(frame).dims().width as int * old(
            frame,
        ).dims().height as int,
        final(frame).dims() == old(frame).dims(),
        final(frame).pixels() == final(r.0.image)@ + final(r.1.image)@,
{
    let size = frame.frame_size();
    let width = size.width;
    let height = size.height;
    proof {
        lemma_row_prefix_bound(width as int, height as int, y as int);
        vstd::arithmetic::mul::lemma_mul_is_commutative(width as int, height as int);
    }
    let im = frame.image_mut();
    let (a, b) = split_rows(im, width, height, y);
    proof {
        vstd::arithmetic::mul::lemma_mul_is_commutative(width as int, y as int);
        vstd::arithmetic::mul::lemma_mul_is_commutative(width as int, (height - y) as int);
        lemma_row_prefix_bound(width as int, height as int, y as int);
    }
    (
        BorrowedMutFrame { image: a, size: Size { width, height: y as u32 } },
        BorrowedMutFrame { image: b, size: Size { width, height: height - y as u32 } },
    )
}

/// One row of a frame: the `width` samples of row `y`, as a borrowed
/// slice. Row-by-row iteration is a call of this per row.
pub fn frame_line<F: Frame>(frame: &F, y: usize) -> (r: &[PixelYc])
    requires
        grid_wf(frame.pixels(), frame.dims()),
        y < frame.dims().height,
    ensures
        r@ == frame.pixels().subrange(
            y as int * frame.dims().width as int,
            (y + 1) as int * frame.dims().width as int,
        ),
        r@.len() == frame.dims().width,
{
    let size = frame.frame_size();
    let width = size.width;
    let height = size.height;
    proof {
        lemma_row_prefix_bound(width as int, height as int, y as int);
        vstd::arithmetic::mul::lemma_mul_is_commutative(width as int, height as int);
        vstd::arithmetic::mul::lemma_mul_is_commutative(width as int, y as int);
        if y as int + 1 < height {
            lemma_row_prefix_bound(width as int, height as int, y as int + 1);
        }
        vstd::arithmetic::mul::lemma_mul_is_commutative(width as int, y as int + 1);
        assert((y as int + 1) * width as int == y as int * width as int + width as int)
            by (nonlinear_arith);
    }
    let im = frame.image();
    let start: usize = y * (width as usize);
    let stop: usize = start + (width as usize);
    vstd::slice::slice_subrange(im, start, stop)
}

/// A frame the plugin itself allocated and owns.
#[derive(Debug, Clone, PartialEq, Eq, Hash)]
pub struct OwnedFrame {
    image: Vec<PixelYc>,
    size: Size,
}

impl OwnedFrame {
    /// Whether the stored grid matches the stored extent.
    pub open spec fn wf(&self) -> bool {
        grid_wf(self.pixels(), self.dims())
    }

    /// Allocates an all-zero frame of the given extent.
    pub fn new(size: Size) -> (r: Self)
        requires
            size.width as int * size.height as int <= usize::MAX,
        ensures
            r.wf(),
            r.dims() == size,
            forall|i: int| 0 <= i < r.pixels().len() ==> r.pixels()[i] == (PixelYc {
                y: 0,
                cb: 0,
                cr: 0,
            }),
    {
        let n = size.area();
        let mut image: Vec<PixelYc> = Vec::new();
        let mut i: usize = 0;
        while i < n
            invariant
                i <= n,
                image@.len() == i,
                forall|k: int| 0 <= k < i ==> image@[k] == (PixelYc { y: 0, cb: 0, cr: 0 }),
            decreases n - i,
        {
            image.push(PixelYc { y: 0, cb: 0, cr: 0 });
            i += 1;
        }
        OwnedFrame { image, size }
    }

    /// A mutable borrowed view of the whole frame.
    pub fn borrow_mut<'s>(&'s mut self) -> (r: BorrowedMutFrame<'s>)
        requires
            old(self).wf(),
        ensures
            r.wf(),
            r.pixels() == old(self).pixels(),
            r.dims() == old(self).dims(),
            final(self).dims() == old(self).dims(),
            final(self).pixels() == final(r.image)@,
    {
        let size = self.size;
        BorrowedMutFrame { image: self.image.as_mut_slice(), size }
    }

    /// Writes one sample at a row-major position.
    pub fn set_pixel(&mut self, i: usize, px: PixelYc)
        requires
            i < old(self).pixels().len(),
        ensures
            final(self).pixels() == old(self).pixels().update(i as int, px),
            final(self).dims() == old(self).dims(),
    {
        self.image[i] = px;
    }

    /// Reads one sample at a row-major position.
    pub fn pixel(&self, i: usize) -> (r: PixelYc)
        requires
            i < self.pixels().len(),
        ensures
            r == self.pixels()[i as int],
    {
        self.image[i]
    }
}

impl Frame for OwnedFrame {
    closed spec fn pixels(&self) -> Seq<PixelYc> {
        self.image@
    }

    closed spec fn dims(&self) -> Size {
        self.size
    }

    fn frame_size(&self) -> (s: Size) {
        self.size
    }

    fn image(&self) -> (r: &[PixelYc]) {
        self.image.as_slice()
    }

    fn image_mut(&mut self) -> (r: &mut [PixelYc]) {
        self.image.as_mut_slice()
    }
}

/// A mutable view over samples lent by the host (or by another frame) for a
/// bounded scope. Holding the extent beside the borrow keeps the view from
/// ever being resized past what was lent.
#[derive(Debug)]
pub struct BorrowedMutFrame<'a> {
    /// The borrowed samples, row-major. The field is public because the
    /// contracts of [`split_at_y`] and [`OwnedFrame::borrow_mut`] must
    /// speak of the final value of this borrow, and a public contract may
    /// only name public fields; with any field private the whole struct
    /// would be opaque to those clauses.
    pub image: &'a mut [PixelYc],
    /// The extent the lender reported for exactly those samples. Build a
    /// view with [`BorrowedMutFrame::from_parts`], which refuses any
    /// mismatch; a view assembled by hand with an extent that does not
    /// match its samples fails `wf`, which every operation requires, so
    /// it cannot be used.
    pub size: Size,
}

impl<'a> BorrowedMutFrame<'a> {
    /// Whether the borrowed view matches its reported extent.
    pub open spec fn wf(&self) -> bool {
        grid_wf(self.pixels(), self.dims())
    }

    /// Builds the view from a borrowed slice and the exact extent reported
    /// for it, refusing any mismatch.
    pub fn from_parts(image: &'a mut [PixelYc], size: Size) -> (r: Option<Self>)
        ensures
            match r {
                Some(f) => f.wf() && f.pixels() == old(image)@ && f.dims() == size,
                None => old(image)@.len() != size.width as int * size.height as int,
            },
    {
        proof {
            vstd::arithmetic::mul::lemma_mul_upper_bound(
                size.width as int,
                u32::MAX as int,
                size.height as int,
                u32::MAX as int,
            );
            vstd::arithmetic::mul::lemma_mul_nonnegative(size.width as int, size.height as int);
        }
        let n = image.len();
        if (size.width as u64) * (size.height as u64) <= usize::MAX as u64 && n == (
        size.width as usize) * (size.height as usize) {
            Some(BorrowedMutFrame { image, size })
        } else {
            None
        }
    }

    /// Writes one sample at a row-major position.
    pub fn set_pixel(&mut self, i: usize, px: PixelYc)
        requires
            i < old(self).pixels().len(),
        ensures
            final(self).pixels() == old(self).pixels().update(i as int, px),
            final(self).dims() == old(self).dims(),
    {
        self.image[i] = px;
    }

    /// Reads one sample at a row-major position.
    pub fn pixel(&self, i: usize) -> (r: PixelYc)
        requires
            i < self.pixels().len(),
        ensures
            r == self.pixels()[i as int],
    {
        *vstd::slice::slice_index_get(self.image, i)
    }
}

impl<'a> Frame for BorrowedMutFrame<'a> {
    closed spec fn pixels(&self) -> Seq<PixelYc> {
        self.image@
    }

    closed spec fn dims(&self) -> Size {
        self.size
    }

    fn frame_size(&self) -> (s: Size) {
        self.size
    }

    fn image(&self) -> (r: &[PixelYc]) {
        self.image
    }

    fn image_mut(&mut self) -> (r: &mut [PixelYc]) {
        self.image
    }
}

} // verus!
