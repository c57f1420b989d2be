//! Fixed-point colorspace conversion: the studio-range mapping between
//! 8-bit component bytes and the wide-range luma/chroma representation
//! (luma scaled to `0..=4096`, chroma to `-2048..=2048`), and the packed
//! 4:2:2 byte layout that shares one chroma pair across two luma samples.
//!
//! All divisions truncate toward zero, exactly as the reference mapping
//! demands, so converted output matches it bit for bit.

use vstd::prelude::*;
use crate::geometry::clamped;
use crate::pixel::PixelYc;

verus! {

/// Division truncating toward zero, the machine's signed division.
pub open spec fn div_trunc(a: int, d: int) -> int
    recommends
        d > 0,
{
    if a >= 0 {
        a / d
    } else {
        -((-a) / d)
    }
}

/// The wide-range luma value of a luma byte: `(b - 16) * 4096 / 219`.
pub open spec fn yc_of_luma_byte(b: int) -> int {
    div_trunc((b - 16) * 4096, 219)
}

/// The wide-range chroma value of a chroma byte: `(b - 128) * 4096 / 224`.
pub open spec fn yc_of_chroma_byte(b: int) -> int {
    div_trunc((b - 128) * 4096, 224)
}

/// The luma byte of a wide-range luma value: `y * 219 / 4096 + 16`,
/// clamped to a byte.
pub open spec fn luma_byte_of_yc(y: int) -> int {
    clamped(div_trunc(y * 219, 4096) + 16, 0, 255)
}

/// The chroma byte of a wide-range chroma value: `c * 224 / 4096 + 128`,
/// clamped to a byte.
pub open spec fn chroma_byte_of_yc(c: int) -> int {
    clamped(div_trunc(c * 224, 4096) + 128, 0, 255)
}

/// Converts one luma byte to the wide-range scale.
pub fn luma_to_yc(b: u8) -> (r: i16)
    ensures
        r as int == yc_of_luma_byte(b as int),
{
    if b >= 16 {
        let v: u32 = ((b as u32 - 16) * 4096) / 219;
        proof {
            vstd::arithmetic::div_mod::lemma_div_is_ordered(
                (b as int - 16) * 4096,
                (239 * 4096) as int,
                219,
            );
        }
        v as i16
    } else {
        let v: u32 = ((16 - b as u32) * 4096) / 219;
        proof {
            vstd::arithmetic::div_mod::lemma_div_is_ordered((16 - b as int) * 4096, ((16 * 4096) as int), 219);
        }
        -(v as i16)
    }
}

/// Converts one chroma byte to the wide-range scale.
pub fn chroma_to_yc(b: u8) -> (r: i16)
    ensures
        r as int == yc_of_chroma_byte(b as int),
{
    if b >= 128 {
        let v: u32 = ((b as u32 - 128) * 4096) / 224;
        proof {
            vstd::arithmetic::div_mod::lemma_div_is_ordered(
                (b as int - 128) * 4096,
                (127 * 4096) as int,
                224,
            );
        }
        v as i16
    } else {
        let v: u32 = ((128 - b as u32) * 4096) / 224;
        proof {
            vstd::arithmetic::div_mod::lemma_div_is_ordered(
                (128 - b as int) * 4096,
                (128 * 4096) as int,
                224,
            );
        }
        -(v as i16)
    }
}

/// Converts one wide-range luma value back to a luma byte, clamped.
pub fn yc_to_luma(y: i16) -> (r: u8)
    ensures
        r as int == luma_byte_of_yc(y as int),
{
    if y >= 0 {
        let t: u32 = (y as u32 * 219) / 4096;
        proof {
            vstd::arithmetic::div_mod::lemma_div_is_ordered(y as int * 219, ((32767 * 219) as int), 4096);
        }
        if t + 16 > 255 {
            255
        } else {
            (t + 16) as u8
        }
    } else {
        let m: u32 = (((-(y as i32)) as u32) * 219) / 4096;
        if m >= 16 {
            0
        } else {
            (16 - m) as u8
        }
    }
}

/// Converts one wide-range chroma value back to a chroma byte, clamped.
pub fn yc_to_chroma(c: i16) -> (r: u8)
    ensures
        r as int == chroma_byte_of_yc(c as int),
{
    if c >= 0 {
        let t: u32 = (c as u32 * 224) / 4096;
        proof {
            vstd::arithmetic::div_mod::lemma_div_is_ordered(c as int * 224, ((32767 * 224) as int), 4096);
        }
        if t + 128 > 255 {
            255
        } else {
            (t + 128) as u8
        }
    } else {
        let m: u32 = (((-(c as i32)) as u32) * 224) / 4096;
        if m >= 128 {
            0
        } else {
            (128 - m) as u8
        }
    }
}

/// The planar sample a packed 4:2:2 group decodes to, for the sample at
/// even offset within the group (`which == 0`) or odd offset (`which == 1`).
/// A group is four bytes `[y0, cb, y1, cr]`: two luma bytes sharing one
/// chroma pair.
pub open spec fn yc_of_yuy2_group(g: Seq<u8>, which: int) -> PixelYc
    recommends
        g.len() == 4,
        0 <= which <= 1,
{
    PixelYc {
        y: yc_of_luma_byte(g[2 * which] as int) as i16,
        cb: yc_of_chroma_byte(g[1] as int) as i16,
        cr: yc_of_chroma_byte(g[3] as int) as i16,
    }
}

/// Decodes one packed 4:2:2 group of four bytes into its two planar
/// samples; both share the group's chroma pair.
pub fn yuy2_group_to_yc(g: [u8; 4]) -> (r: (PixelYc, PixelYc))
    ensures
        r.0 == yc_of_yuy2_group(g@, 0),
        r.1 == yc_of_yuy2_group(g@, 1),
{
    let cb = chroma_to_yc(g[1]);
    let cr = chroma_to_yc(g[3]);
    (
        PixelYc { y: luma_to_yc(g[0]), cb, cr },
        PixelYc { y: luma_to_yc(g[2]), cb, cr },
    )
}

/// The four packed bytes two adjacent planar samples encode to: each keeps
/// its own luma, the chroma pair is taken from the first sample.
pub open spec fn yuy2_group_of_yc(p0: PixelYc, p1: PixelYc) -> Seq<u8> {
    seq![
        luma_byte_of_yc(p0.y as int) as u8,
        chroma_byte_of_yc(p0.cb as int) as u8,
        luma_byte_of_yc(p1.y as int) as u8,
        chroma_byte_of_yc(p0.cr as int) as u8,
    ]
}

/// Encodes two adjacent planar samples into one packed 4:2:2 group,
/// dropping the second sample's chroma (4:2:2 subsampling).
pub fn yc_to_yuy2_group(p0: PixelYc, p1: PixelYc) -> (r: [u8; 4])
    ensures
        r@ == yuy2_group_of_yc(p0, p1),
{
    let r = [yc_to_luma(p0.y), yc_to_chroma(p0.cb), yc_to_luma(p1.y), yc_to_chroma(p0.cr)];
    proof {
        assert(r@ =~= yuy2_group_of_yc(p0, p1));
    }
    r
}

/// Decodes a row of packed 4:2:2 bytes (`2 * pixels` bytes, `pixels` even)
/// into its planar samples.
pub fn yuy2_row_to_yc(src: &[u8], pixels: usize) -> (r: Vec<PixelYc>)
    requires
        pixels % 2 == 0,
        src@.len() == 2 * pixels,
    ensures
        r@.len() == pixels,
        forall|i: int|
            0 <= i < pixels ==> r@[i] == yc_of_yuy2_group(
                src@.subrange(4 * (i / 2), 4 * (i / 2) + 4),
                i % 2,
            ),
{
    let total = src.len();
    let mut out: Vec<PixelYc> = Vec::new();
    let mut p: usize = 0;
    while p < pixels
        invariant
            pixels % 2 == 0,
            src@.len() == 2 * pixels,
            total == 2 * pixels,
            p % 2 == 0,
            p <= pixels,
            out@.len() == p,
            forall|i: int|
                0 <= i < p ==> out@[i] == yc_of_yuy2_group(
                    src@.subrange(4 * (i / 2), 4 * (i / 2) + 4),
                    i % 2,
                ),
        decreases pixels - p,
    {
        let base = 2 * p;
        let g: [u8; 4] = [src[base], src[base + 1], src[base + 2], src[base + 3]];
        let (p0, p1) = yuy2_group_to_yc(g);
        proof {
            assert(g@ =~= src@.subrange(4 * ((p as int) / 2), 4 * ((p as int) / 2) + 4));
            assert((p as int) % 2 == 0 && (p as int + 1) % 2 == 1);
            assert((p as int + 1) / 2 == (p as int) / 2);
        }
        out.push(p0);
        out.push(p1);
        p += 2;
    }
    out
}

/// Encodes a row of planar samples (`pixels` even) into packed 4:2:2 bytes.
pub fn yc_row_to_yuy2(src: &[PixelYc], pixels: usize) -> (r: Vec<u8>)
    requires
        pixels % 2 == 0,
        src@.len() == pixels,
    ensures
        r@.len() == 2 * pixels,
        forall|k: int|
            0 <= k < pixels / 2 ==> #[trigger] r@.subrange(4 * k, 4 * k + 4) == yuy2_group_of_yc(
                src@[2 * k],
                src@[2 * k + 1],
            ),
{
    let mut out: Vec<u8> = Vec::new();
    let mut p: usize = 0;
    while p < pixels
        invariant
            pixels % 2 == 0,
            src@.len() == pixels,
            p % 2 == 0,
            p <= pixels,
            out@.len() == 2 * p,
            forall|k: int|
                0 <= k < p / 2 ==> #[trigger] out@.subrange(4 * k, 4 * k + 4) == yuy2_group_of_yc(
                    src@[2 * k],
                    src@[2 * k + 1],
                ),
        decreases pixels - p,
    {
        let ghost prev = out@;
        let g = yc_to_yuy2_group(src[p], src[p + 1]);
        out.push(g[0]);
        out.push(g[1]);
        out.push(g[2]);
        out.push(g[3]);
        proof {
            vstd::arithmetic::div_mod::lemma_fundamental_div_mod(p as int, 2);
            let k0 = (p as int) / 2;
            assert(2 * k0 == p as int);
            assert(out@ =~= prev + g@);
            assert forall|k: int|
                0 <= k < k0 + 1 implies #[trigger] out@.subrange(4 * k, 4 * k + 4)
                == yuy2_group_of_yc(src@[2 * k], src@[2 * k + 1]) by {
                if k < k0 {
                    assert(out@.subrange(4 * k, 4 * k + 4) =~= prev.subrange(4 * k, 4 * k + 4));
                } else {
                    assert(out@.subrange(4 * k, 4 * k + 4) =~= g@);
                }
            }
        }
        p += 2;
    }
    out
}

/// Scaling a nonnegative value up by `4096 / den` and back down, with both
/// divisions flooring, loses at most one unit.
proof fn lemma_scale_unscale(n: int, den: int)
    requires
        0 <= n,
        0 < den <= 4096,
    ensures
        n - 1 <= (4096 * n / den) * den / 4096 <= n,
        0 <= 4096 * n / den,
{
    let y = 4096 * n / den;
    let r = (4096 * n) % den;
    vstd::arithmetic::div_mod::lemma_div_pos_is_pos(4096 * n, den);
    vstd::arithmetic::div_mod::lemma_fundamental_div_mod(4096 * n, den);
    vstd::arithmetic::div_mod::lemma_mod_bound(4096 * n, den);
    assert(y * den == 4096 * n - r) by (nonlinear_arith)
        requires
            4096 * n == den * y + r,
    ;
    vstd::arithmetic::div_mod::lemma_div_is_ordered(y * den, 4096 * n, 4096);
    vstd::arithmetic::div_mod::lemma_div_multiples_vanish(n, 4096);
    assert(4096 * (n - 1) <= 4096 * n - r);
    vstd::arithmetic::div_mod::lemma_div_is_ordered(4096 * (n - 1), y * den, 4096);
    vstd::arithmetic::div_mod::lemma_div_multiples_vanish(n - 1, 4096);
}

/// One byte step changes the scaled-up value by 1 to 19 units, when the
/// denominator is one of the studio-range divisors.
proof fn lemma_scale_gap(n: int, den: int)
    requires
        1 <= n,
        216 <= den <= 224,
    ensures
        1 <= 4096 * n / den - 4096 * (n - 1) / den <= 19,
{
    let y1 = 4096 * n / den;
    let y0 = 4096 * (n - 1) / den;
    let r1 = (4096 * n) % den;
    let r0 = (4096 * (n - 1)) % den;
    vstd::arithmetic::div_mod::lemma_fundamental_div_mod(4096 * n, den);
    vstd::arithmetic::div_mod::lemma_fundamental_div_mod(4096 * (n - 1), den);
    vstd::arithmetic::div_mod::lemma_mod_bound(4096 * n, den);
    vstd::arithmetic::div_mod::lemma_mod_bound(4096 * (n - 1), den);
    assert(4096 * n - 4096 * (n - 1) == 4096);
    assert((y1 - y0) * den == 4096 - r1 + r0) by (nonlinear_arith)
        requires
            4096 * n == den * y1 + r1,
            4096 * (n - 1) == den * y0 + r0,
            4096 * n - 4096 * (n - 1) == 4096,
    ;
    assert(1 <= y1 - y0 <= 19) by (nonlinear_arith)
        requires
            (y1 - y0) * den == 4096 - r1 + r0,
            0 <= r1 < den,
            0 <= r0 < den,
            216 <= den <= 224,
    ;
}

/// Truncating division is monotone in the dividend.
pub proof fn lemma_div_trunc_monotone(a1: int, a2: int, d: int)
    requires
        a1 <= a2,
        0 < d,
    ensures
        div_trunc(a1, d) <= div_trunc(a2, d),
{
    if a1 >= 0 {
        vstd::arithmetic::div_mod::lemma_div_is_ordered(a1, a2, d);
    } else if a2 < 0 {
        vstd::arithmetic::div_mod::lemma_div_is_ordered(-a2, -a1, d);
    } else {
        vstd::arithmetic::div_mod::lemma_div_pos_is_pos(-a1, d);
        vstd::arithmetic::div_mod::lemma_div_pos_is_pos(a2, d);
    }
}

/// Converting a studio-range luma byte to the wide-range scale and back
/// recovers the byte up to one unit of truncation (exactly the byte or one
/// below).
pub proof fn lemma_luma_byte_round_trip(b: int)
    requires
        16 <= b <= 235,
    ensures
        b - 1 <= luma_byte_of_yc(yc_of_luma_byte(b)) <= b,
{
    let n = b - 16;
    lemma_scale_unscale(n, 219);
    let y = yc_of_luma_byte(b);
    assert((b - 16) * 4096 == 4096 * n);
    assert(y == 4096 * n / 219);
    assert(y * 219 == (4096 * n / 219) * 219);
    assert(div_trunc(y * 219, 4096) == (4096 * n / 219) * 219 / 4096) by {
        vstd::arithmetic::mul::lemma_mul_nonnegative(y, 219);
    }
}

/// Converting a studio-range chroma byte to the wide-range scale and back
/// recovers the byte up to one unit of truncation (toward the midpoint 128).
pub proof fn lemma_chroma_byte_round_trip(b: int)
    requires
        16 <= b <= 240,
    ensures
        b - 1 <= chroma_byte_of_yc(yc_of_chroma_byte(b)) <= b + 1,
        b >= 128 ==> chroma_byte_of_yc(yc_of_chroma_byte(b)) <= b,
        b < 128 ==> chroma_byte_of_yc(yc_of_chroma_byte(b)) >= b,
{
    if b >= 128 {
        let n = b - 128;
        lemma_scale_unscale(n, 224);
        let c = yc_of_chroma_byte(b);
        assert((b - 128) * 4096 == 4096 * n);
        assert(c == 4096 * n / 224);
        assert(c * 224 == (4096 * n / 224) * 224);
        assert(div_trunc(c * 224, 4096) == (4096 * n / 224) * 224 / 4096) by {
            vstd::arithmetic::mul::lemma_mul_nonnegative(c, 224);
        }
    } else {
        let m = 128 - b;
        lemma_scale_unscale(m, 224);
        let q = 4096 * m / 224;
        let c = yc_of_chroma_byte(b);
        assert((b - 128) * 4096 == -(4096 * m));
        assert(c == -q);
        assert(c * 224 == -(q * 224));
        vstd::arithmetic::mul::lemma_mul_nonnegative(q, 224);
        if q == 0 {
            assert(div_trunc(c * 224, 4096) == 0);
        } else {
            assert(div_trunc(c * 224, 4096) == -(q * 224 / 4096));
        }
    }
}

/// One step down in a luma byte moves the wide-range value down by at most
/// 19 units (one truncation step), and never up.
proof fn lemma_luma_adjacent_gap(b: int)
    requires
        16 <= b <= 236,
    ensures
        0 <= yc_of_luma_byte(b) - yc_of_luma_byte(b - 1) <= 19,
{
    if b == 16 {
        assert(yc_of_luma_byte(16) == 0);
        assert(yc_of_luma_byte(15) == -(4096int / 219));
    } else {
        let n = b - 16;
        assert((b - 16) * 4096 == 4096 * n);
        assert((b - 1 - 16) * 4096 == 4096 * (n - 1));
        vstd::arithmetic::mul::lemma_mul_nonnegative(n, 4096);
        lemma_scale_gap(n, 219);
    }
}

/// One step down in a chroma byte moves the wide-range value down by at
/// most 19 units (one truncation step), and never up.
proof fn lemma_chroma_adjacent_gap(b: int)
    requires
        16 <= b <= 241,
    ensures
        0 <= yc_of_chroma_byte(b) - yc_of_chroma_byte(b - 1) <= 19,
{
    if b >= 129 {
        let n = b - 128;
        assert((b - 128) * 4096 == 4096 * n);
        assert((b - 1 - 128) * 4096 == 4096 * (n - 1));
        lemma_scale_gap(n, 224);
    } else {
        let n = 129 - b;
        assert((b - 128) * 4096 == -(4096 * (n - 1)));
        assert((b - 1 - 128) * 4096 == -(4096 * n));
        lemma_scale_gap(n, 224);
        vstd::arithmetic::div_mod::lemma_div_pos_is_pos(4096 * (n - 1), 224);
        vstd::arithmetic::div_mod::lemma_div_pos_is_pos(4096 * n, 224);
    }
}

/// A wide-range luma value that came from a studio-range byte, sent through
/// the byte form and back, lands within one truncation step (19 units)
/// below the original, never above.
pub proof fn lemma_luma_yc_round_trip(b: int)
    requires
        16 <= b <= 235,
    ensures
        yc_of_luma_byte(b) - 19 <= yc_of_luma_byte(luma_byte_of_yc(yc_of_luma_byte(b))),
        yc_of_luma_byte(luma_byte_of_yc(yc_of_luma_byte(b))) <= yc_of_luma_byte(b),
{
    lemma_luma_byte_round_trip(b);
    let b2 = luma_byte_of_yc(yc_of_luma_byte(b));
    lemma_div_trunc_monotone((b2 - 16) * 4096, (b - 16) * 4096, 219);
    if b2 == b - 1 {
        lemma_luma_adjacent_gap(b);
    }
}

/// A wide-range chroma value that came from a studio-range byte, sent
/// through the byte form and back, lands within one truncation step (19
/// units) of the original.
pub proof fn lemma_chroma_yc_round_trip(b: int)
    requires
        16 <= b <= 240,
    ensures
        yc_of_chroma_byte(b) - 19 <= yc_of_chroma_byte(chroma_byte_of_yc(yc_of_chroma_byte(b))),
        yc_of_chroma_byte(chroma_byte_of_yc(yc_of_chroma_byte(b))) <= yc_of_chroma_byte(b) + 19,
{
    lemma_chroma_byte_round_trip(b);
    let b2 = chroma_byte_of_yc(yc_of_chroma_byte(b));
    if b2 == b - 1 {
        lemma_chroma_adjacent_gap(b);
        lemma_div_trunc_monotone((b2 - 128) * 4096, (b - 128) * 4096, 224);
    } else if b2 == b + 1 {
        lemma_chroma_adjacent_gap(b + 1);
        lemma_div_trunc_monotone((b - 128) * 4096, (b2 - 128) * 4096, 224);
    }
}

} // verus!
