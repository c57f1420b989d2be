//! Picture coordinates, sizes, rectangles, frame rate and pixel-format
//! identifiers: the plain value types of the plugin surface.

use vstd::prelude::*;

verus! {

/// A point on the editing image, in signed pixel coordinates.
#[derive(Debug, Clone, Copy, PartialEq, Eq, Structural, Hash)]
pub struct Point {
    pub x: i32,
    pub y: i32,
}

impl Point {
    /// The origin.
    pub fn new() -> (r: Self)
        ensures
            r.x == 0 && r.y == 0,
    {
        Point { x: 0, y: 0 }
    }

    /// Clamps both coordinates into `[min, max]`.
    pub fn clamp(self, min: i32, max: i32) -> (r: Self)
        requires
            min <= max,
        ensures
            r.x == clamped(self.x as int, min as int, max as int),
            r.y == clamped(self.y as int, min as int, max as int),
    {
        Point { x: clamp_i32(self.x, min, max), y: clamp_i32(self.y, min, max) }
    }
}

/// What clamping a value into `[min, max]` yields.
pub open spec fn clamped(value: int, min: int, max: int) -> int {
    if value < min {
        min
    } else if value > max {
        max
    } else {
        value
    }
}

fn clamp_i32(value: i32, min: i32, max: i32) -> (r: i32)
    requires
        min <= max,
    ensures
        r == clamped(value as int, min as int, max as int),
{
    if value < min {
        min
    } else if value > max {
        max
    } else {
        value
    }
}

/// A rectangular extent in pixels.
#[derive(Debug, Clone, Copy, PartialEq, Eq, Structural, Hash)]
pub struct Size {
    pub width: u32,
    pub height: u32,
}

impl Size {
    /// The empty size.
    pub fn new() -> (r: Self)
        ensures
            r.width == 0 && r.height == 0,
    {
        Size { width: 0, height: 0 }
    }

    /// The number of samples in a dense `width * height` grid.
    pub fn area(self) -> (r: usize)
        requires
            self.width as int * self.height as int <= usize::MAX,
        ensures
            r == self.width as int * self.height as int,
    {
        (self.width as usize) * (self.height as usize)
    }
}

/// An axis-aligned rectangle: a corner point and an extent.
#[derive(Debug, Clone, Copy, PartialEq, Eq, Structural, Hash)]
pub struct Rect {
    pub size: Size,
    pub point: Point,
}

impl Rect {
    /// The empty rectangle at the origin.
    pub fn new() -> (r: Self)
        ensures
            r.size.width == 0 && r.size.height == 0,
            r.point.x == 0 && r.point.y == 0,
    {
        Rect { size: Size { width: 0, height: 0 }, point: Point { x: 0, y: 0 } }
    }

    /// X coordinate of the left edge.
    pub fn left(self) -> (r: i32)
        ensures
            r == self.point.x,
    {
        self.point.x
    }

    /// X coordinate one past the right edge.
    pub fn right(self) -> (r: i32)
        requires
            self.point.x + self.size.width <= i32::MAX,
            self.size.width <= i32::MAX,
        ensures
            r == self.point.x + self.size.width,
    {
        self.point.x + self.size.width as i32
    }

    /// Y coordinate of the top edge.
    pub fn top(self) -> (r: i32)
        ensures
            r == self.point.y,
    {
        self.point.y
    }

    /// Y coordinate one past the bottom edge.
    pub fn bottom(self) -> (r: i32)
        requires
            self.point.y + self.size.height <= i32::MAX,
            self.size.height <= i32::MAX,
        ensures
            r == self.point.y + self.size.height,
    {
        self.point.y + self.size.height as i32
    }
}

/// A frame rate as an exact rational `rate / scale`.
#[derive(Debug, Clone, Copy, PartialEq, Eq, Structural, Hash)]
pub struct FrameRate {
    pub rate: u32,
    pub scale: u32,
}

/// A pixel-format identifier: a four-character code packed into one word,
/// least significant byte first. The all-zero word stands for 24-bit RGB.
#[derive(Debug, Clone, Copy, PartialEq, Eq, Structural, Hash)]
pub struct PixelFormat(u32);

/// The word that four code bytes pack into, least significant byte first.
pub open spec fn four_code_word(code: Seq<u8>) -> int
    recommends
        code.len() == 4,
{
    code[0] + 0x100 * code[1] + 0x10000 * code[2] + 0x1000000 * code[3]
}

/// The four code bytes of a packed word, least significant byte first.
pub open spec fn four_code_bytes(raw: u32) -> Seq<u8> {
    seq![
        (raw % 0x100) as u8,
        ((raw / 0x100) % 0x100) as u8,
        ((raw / 0x10000) % 0x100) as u8,
        (raw / 0x1000000) as u8,
    ]
}

impl PixelFormat {
    /// The raw packed word.
    pub closed spec fn raw(self) -> u32 {
        self.0
    }

    /// The 24-bit RGB format, whose identifier is the zero word.
    pub fn rgb24() -> (r: Self)
        ensures
            r.raw() == 0,
    {
        PixelFormat(0)
    }

    /// The packed 4:2:2 luma/chroma byte format.
    pub fn yuy2() -> (r: Self)
        ensures
            r.raw() == four_code_word(seq![89u8, 85u8, 89u8, 50u8]),
    {
        Self::from_four_code([89u8, 85u8, 89u8, 50u8])
    }

    /// Packs a four-character code into a format identifier.
    pub fn from_four_code(code: [u8; 4]) -> (r: Self)
        ensures
            r.raw() == four_code_word(code@),
    {
        let r: u32 = (code[0] as u32) + 0x100 * (code[1] as u32) + 0x10000 * (code[2] as u32)
            + 0x1000000 * (code[3] as u32);
        PixelFormat(r)
    }

    /// Unpacks the format identifier back into its four code bytes.
    pub fn into_four_code(self) -> (r: [u8; 4])
        ensures
            r@ == four_code_bytes(self.raw()),
            four_code_word(r@) == self.raw(),
    {
        let raw = self.0;
        let r = [
            (raw % 0x100) as u8,
            ((raw / 0x100) % 0x100) as u8,
            ((raw / 0x10000) % 0x100) as u8,
            (raw / 0x1000000) as u8,
        ];
        proof {
            lemma_four_code_bytes_word(raw);
        }
        r
    }

    /// Bytes each pixel occupies, for the formats this layer knows.
    pub fn bytes_per_pixel(self) -> (r: usize)
        requires
            self.raw() == 0 || self.raw() == four_code_word(seq![89u8, 85u8, 89u8, 50u8]),
        ensures
            self.raw() == 0 ==> r == 3,
            self.raw() != 0 ==> r == 2,
    {
        if self.0 == 0 {
            3
        } else {
            2
        }
    }

    /// The raw packed word.
    pub fn into_raw(self) -> (r: u32)
        ensures
            r == self.raw(),
    {
        self.0
    }
}

/// Unpacking a packed word yields bytes that pack back to the same word.
pub proof fn lemma_four_code_bytes_word(raw: u32)
    ensures
        four_code_word(four_code_bytes(raw)) == raw,
{
    assert((raw % 0x100) + 0x100 * ((raw / 0x100) % 0x100) + 0x10000 * ((raw / 0x10000) % 0x100)
        + 0x1000000 * (raw / 0x1000000) == raw) by (bit_vector);
}

/// Packing four bytes and unpacking again recovers exactly those bytes:
/// the format code round-trips through the encoder and decoder.
pub proof fn lemma_four_code_round_trip(code: [u8; 4])
    ensures
        four_code_bytes((four_code_word(code@)) as u32) == code@,
        0 <= four_code_word(code@) <= u32::MAX,
{
    let b0 = code@[0];
    let b1 = code@[1];
    let b2 = code@[2];
    let b3 = code@[3];
    let w: u32 = (b0 + 0x100 * b1 + 0x10000 * b2 + 0x1000000 * b3) as u32;
    assert(((b0 as u32) + 0x100 * (b1 as u32) + 0x10000 * (b2 as u32) + 0x1000000 * (b3 as u32))
        % 0x100 == b0 as u32) by (bit_vector);
    assert((((b0 as u32) + 0x100 * (b1 as u32) + 0x10000 * (b2 as u32) + 0x1000000 * (b3 as u32))
        / 0x100) % 0x100 == b1 as u32) by (bit_vector);
    assert((((b0 as u32) + 0x100 * (b1 as u32) + 0x10000 * (b2 as u32) + 0x1000000 * (b3 as u32))
        / 0x10000) % 0x100 == b2 as u32) by (bit_vector);
    assert(((b0 as u32) + 0x100 * (b1 as u32) + 0x10000 * (b2 as u32) + 0x1000000 * (b3 as u32))
        / 0x1000000 == b3 as u32) by (bit_vector);
    assert(four_code_bytes(w) =~= code@);
}

} // verus!
