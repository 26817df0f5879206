use vstd::prelude::*;
use crate::escpos::printer::PrinterState;

verus! {

/// Whether the pixel at column `x`, row `y` of a packed 1-bit-per-pixel bitmap is
/// black: rows take `(width + 7) / 8` bytes, the first pixel is the high bit, and
/// bytes missing at the end read as white.
pub open spec fn bitmap_pixel_black(width: u32, data: Seq<u8>, x: int, y: int) -> bool {
    let bytes_per_row = (width + 7) / 8;
    let byte_idx = y * bytes_per_row + x / 8;
    let bit_idx = (7 - x % 8) as u32;
    byte_idx < data.len() && (data[byte_idx] >> bit_idx) & 1u8 == 1u8
}

/// Sample `i` of the RGB rendering: every channel is 0 for black, 255 for white.
pub open spec fn bitmap_sample(width: u32, data: Seq<u8>, i: int) -> u8 {
    let p = i / 3;
    if bitmap_pixel_black(width, data, p % (width as int), p / (width as int)) {
        0
    } else {
        255
    }
}

/// The RGB samples of a `width` by `height` bitmap, row by row.
pub open spec fn bitmap_rgb(width: u32, height: u32, data: Seq<u8>) -> Seq<u8> {
    Seq::new((3 * width * height) as nat, |i: int| bitmap_sample(width, data, i))
}

proof fn lemma_sample_index(width: u32, x: int, y: int, c: int)
    requires
        width > 0,
        0 <= x < width,
        0 <= y,
        0 <= c < 3,
    ensures
        (3 * (y * width + x) + c) / 3 == y * width + x,
        (y * width + x) % (width as int) == x,
        (y * width + x) / (width as int) == y,
{
    vstd::arithmetic::div_mod::lemma_fundamental_div_mod_converse(
        3 * (y * width + x) + c,
        3,
        y * width + x,
        c,
    );
    vstd::arithmetic::div_mod::lemma_fundamental_div_mod_converse(
        y * width + x,
        width as int,
        y,
        x,
    );
}

/// Sample `i` of a bitmap whose data is `a` followed by `b`, where `a` holds
/// exactly `k` rows of `(width + 7) / 8` bytes: the first `k` rows come from `a`
/// alone and the rest from `b` alone.
proof fn lemma_sample_of_stacked(width: u32, k: int, a: Seq<u8>, b: Seq<u8>, i: int)
    requires
        width > 0,
        k >= 0,
        a.len() == k * ((width + 7) / 8),
        0 <= i,
    ensures
        i < 3 * width * k ==> bitmap_sample(width, a + b, i) == bitmap_sample(width, a, i),
        i >= 3 * width * k ==> bitmap_sample(width, a + b, i) == bitmap_sample(
            width,
            b,
            i - 3 * width * k,
        ),
{
    let w = width as int;
    let s = (width + 7) / 8;
    let p = i / 3;
    let x = p % w;
    let y = p / w;
    vstd::arithmetic::div_mod::lemma_fundamental_div_mod(i, 3);
    vstd::arithmetic::div_mod::lemma_fundamental_div_mod(p, w);
    assert(0 <= x < w);
    assert(x / 8 < s);
    assert(0 <= y);
    if i < 3 * width * k {
        assert(p < w * k) by (nonlinear_arith)
            requires
                i == 3 * p + i % 3,
                0 <= i % 3 < 3,
                i < 3 * w * k,
        ;
        assert(y < k) by (nonlinear_arith)
            requires
                p == w * y + x,
                0 <= x,
                p < w * k,
                w > 0,
        ;
        assert(y * s + x / 8 < k * s) by (nonlinear_arith)
            requires
                0 <= y < k,
                0 <= x / 8 < s,
        ;
        assert(y * s + x / 8 >= 0) by (nonlinear_arith)
            requires
                0 <= y,
                0 <= x / 8,
                s >= 0,
        ;
        assert((a + b)[y * s + x / 8] == a[y * s + x / 8]);
    } else {
        let j = i - 3 * width * k;
        let q = j / 3;
        vstd::arithmetic::div_mod::lemma_fundamental_div_mod(j, 3);
        vstd::arithmetic::div_mod::lemma_fundamental_div_mod(q, w);
        assert(i == 3 * (q + w * k) + j % 3) by (nonlinear_arith)
            requires
                j == i - 3 * width * k,
                j == 3 * q + j % 3,
                w == width,
        ;
        vstd::arithmetic::div_mod::lemma_fundamental_div_mod_converse(i, 3, q + w * k, j % 3);
        assert(p == q + w * k);
        assert(p == w * (q / w + k) + q % w) by (nonlinear_arith)
            requires
                p == q + w * k,
                q == w * (q / w) + q % w,
        ;
        vstd::arithmetic::div_mod::lemma_fundamental_div_mod_converse(p, w, q / w + k, q % w);
        assert(x == q % w);
        assert(y == q / w + k);
        assert(q / w >= 0) by (nonlinear_arith)
            requires
                q >= 0,
                w > 0,
        ;
        let idx_b = (q / w) * s + x / 8;
        assert(y * s + x / 8 == idx_b + k * s) by (nonlinear_arith)
            requires
                y == q / w + k,
                idx_b == (q / w) * s + x / 8,
        ;
        assert(idx_b >= 0) by (nonlinear_arith)
            requires
                q / w >= 0,
                s >= 0,
                x / 8 >= 0,
                idx_b == (q / w) * s + x / 8,
        ;
        if idx_b < b.len() {
            assert((a + b)[idx_b + a.len()] == b[idx_b]);
        }
    }
}

/// Rows are stacked one after the other: rendering the rows of `a` (exactly `k`
/// rows of `(width + 7) / 8` bytes each) followed by the rows of `b` gives the
/// rendering of `a` followed by the rendering of `b`. In particular every row
/// starts `(width + 7) / 8` bytes after the one before it, and a row renders the
/// same wherever it stands in the bitmap.
pub proof fn lemma_bitmap_rows_stack(width: u32, k: u32, h: u32, a: Seq<u8>, b: Seq<u8>)
    requires
        k + h <= u32::MAX,
        a.len() == k * ((width + 7) / 8),
    ensures
        bitmap_rgb(width, (k + h) as u32, a + b) == bitmap_rgb(width, k, a) + bitmap_rgb(width, h, b),
{
    let whole = bitmap_rgb(width, (k + h) as u32, a + b);
    let top = bitmap_rgb(width, k, a);
    let bottom = bitmap_rgb(width, h, b);
    let kh = (k + h) as u32;
    assert(kh == k + h);
    assert(3 * width * kh == 3 * width * k + 3 * width * h) by (nonlinear_arith)
        requires
            kh == k + h,
    ;
    if width > 0 {
        assert forall|i: int| 0 <= i < whole.len() implies whole[i] == (top + bottom)[i] by {
            lemma_sample_of_stacked(width, k as int, a, b, i);
            if i < top.len() {
                assert(whole[i] == top[i]);
            } else {
                assert(whole[i] == bottom[i - top.len()]);
            }
        }
        assert(whole.len() == top.len() + bottom.len());
        assert(whole =~= top + bottom);
    } else {
        assert(3 * width * kh == 0 && 3 * width * k == 0 && 3 * width * h == 0) by (nonlinear_arith)
            requires
                width == 0,
        ;
        assert(whole =~= top + bottom);
    }
}

/// One row of `(width + 7) / 8` bytes: pixel `x` is black (all three samples 0)
/// exactly when bit `7 - x % 8` of byte `x / 8` is set, the first pixel being the
/// byte's high bit; otherwise it is white (all three samples 255).
pub proof fn lemma_bitmap_single_row(width: u32, row: Seq<u8>, x: int, c: int)
    requires
        row.len() == (width + 7) / 8,
        0 <= x < width,
        0 <= c < 3,
    ensures
        bitmap_rgb(width, 1, row).len() == 3 * width,
        bitmap_rgb(width, 1, row)[3 * x + c] == (if (row[x / 8] >> ((7 - x % 8) as u32)) & 1u8
            == 1u8 {
            0u8
        } else {
            255u8
        }),
{
    lemma_sample_index(width, x, 0, c);
    assert(0 * width + x == x);
    assert(3 * width * 1 == 3 * width);
    assert(x / 8 < (width + 7) / 8);
    assert(0 * ((width + 7) / 8) + x / 8 == x / 8);
    let rgb = bitmap_rgb(width, 1, row);
    assert(rgb[3 * x + c] == bitmap_sample(width, row, 3 * x + c));
    assert(3 * (0 * width + x) + c == 3 * x + c);
}

impl PrinterState {
    /// Convert a monochrome 1bpp bitmap to RGB for display: the samples of a
    /// `width_px` by `height_px` RGB image, row by row, three per pixel.
    pub fn bitmap_to_rgb(width_px: u32, height_px: u32, data: &[u8]) -> (samples: Vec<u8>)
        requires
            3 * width_px * height_px <= usize::MAX,
            width_px + 7 <= u32::MAX,
            width_px == 0 || height_px == 0 || (height_px - 1) * ((width_px + 7) / 8) + (width_px
                - 1) / 8 <= u32::MAX,
        ensures
            samples@ == bitmap_rgb(width_px, height_px, data@),
    {
        let bytes_per_row: u64 = (width_px as u64 + 7) / 8;
        let mut out: Vec<u8> = Vec::new();
        let mut y: u32 = 0;
        while y < height_px
            invariant
                3 * width_px * height_px <= usize::MAX,
                bytes_per_row == (width_px + 7) / 8,
                y <= height_px,
                out@.len() == 3 * (y * width_px),
                forall|i: int| 0 <= i < out@.len() ==> out@[i] == #[trigger] bitmap_sample(width_px, data@, i),
            decreases height_px - y,
        {
            let mut x: u32 = 0;
            while x < width_px
                invariant
                    3 * width_px * height_px <= usize::MAX,
                    bytes_per_row == (width_px + 7) / 8,
                    y < height_px,
                    x <= width_px,
                    out@.len() == 3 * (y * width_px + x),
                    forall|i: int| 0 <= i < out@.len() ==> out@[i] == #[trigger] bitmap_sample(width_px, data@, i),
                decreases width_px - x,
            {
                assert(y as u64 * bytes_per_row <= 0xffff_ffff * 0x2000_0000) by (nonlinear_arith)
                    requires
                        y <= 0xffff_ffff,
                        bytes_per_row <= 0x2000_0000,
                ;
                let byte_idx: u64 = y as u64 * bytes_per_row + (x / 8) as u64;
                let bit_idx: u32 = 7 - (x % 8);
                let black = byte_idx < data.len() as u64 && (data[byte_idx as usize] >> bit_idx) & 1
                    == 1;
                let v: u8 = if black {
                    0
                } else {
                    255
                };
                let ghost k = 3 * (y * width_px + x);
                proof {
                    assert(y * width_px + x < height_px * width_px) by (nonlinear_arith)
                        requires
                            y < height_px,
                            x < width_px,
                    ;
                    assert(k + 3 <= 3 * width_px * height_px) by (nonlinear_arith)
                        requires
                            k == 3 * (y * width_px + x),
                            y * width_px + x < height_px * width_px,
                    ;
                    lemma_sample_index(width_px, x as int, y as int, 0);
                    lemma_sample_index(width_px, x as int, y as int, 1);
                    lemma_sample_index(width_px, x as int, y as int, 2);
                    assert(black == bitmap_pixel_black(width_px, data@, x as int, y as int));
                }
                out.push(v);
                out.push(v);
                out.push(v);
                assert(out@[k] == bitmap_sample(width_px, data@, k));
                assert(out@[k + 1] == bitmap_sample(width_px, data@, k + 1));
                assert(out@[k + 2] == bitmap_sample(width_px, data@, k + 2));
                x = x + 1;
            }
            assert(3 * (y * width_px + width_px) == 3 * ((y + 1) * width_px)) by (nonlinear_arith);
            y = y + 1;
        }
        assert(3 * (height_px * width_px) == 3 * width_px * height_px) by (nonlinear_arith);
        assert(out@ =~= bitmap_rgb(width_px, height_px, data@));
        out
    }
}

} // verus!
