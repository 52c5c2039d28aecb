//! A moving test picture for the video output: concentric rings drawn in
//! YUYV into a frame buffer.

use crate::vi::Xfb;
use vstd::prelude::*;

verus! {

// Weights of the RGB to YUV conversion in 16-bit fixed point: the
// coefficients 0.299, 0.587, 0.114, -0.169, -0.331, 0.5, 0.5, -0.419,
// -0.081 times 65536, rounded toward zero.
pub const YR: i32 = 19595;
pub const YG: i32 = 38469;
pub const YB: i32 = 7471;
pub const UR: i32 = -11075;
pub const UG: i32 = -21692;
pub const UB: i32 = 32768;
pub const VR: i32 = 32768;
pub const VG: i32 = -27459;
pub const VB: i32 = -5308;

/// Colour step between neighbouring ring values: one unit in each of the
/// red, green and blue bytes.
pub const RING_STEP: i32 = 0x0080401;

/// Luma of an RGB pixel.
pub open spec fn luma(r: i32, g: i32, b: i32) -> i32 {
    ((YR * r + YG * g + YB * b) as i32) >> 16i32
}

/// Blue-difference chroma of an RGB pixel.
pub open spec fn chroma_u(r: i32, g: i32, b: i32) -> i32 {
    ((UR * r + UG * g + UB * b) as i32) >> 16i32
}

/// Red-difference chroma of an RGB pixel.
pub open spec fn chroma_v(r: i32, g: i32, b: i32) -> i32 {
    ((VR * r + VG * g + VB * b) as i32) >> 16i32
}

/// The YUYV half-pair of the RGB pixel `pixel` (red in bits 16..24, green
/// in 8..16, blue in 0..8): luma in the high byte, then U for an odd pixel
/// or V for an even one, offset by 128.
#[verifier::opaque]
pub open spec fn yuyv_of(pixel: i32, odd: bool) -> u16 {
    let r = (pixel >> 16i32) & 0xff;
    let g = (pixel >> 8i32) & 0xff;
    let b = pixel & 0xff;
    let chroma = (if odd {
        chroma_u(r, g, b)
    } else {
        chroma_v(r, g, b)
    }) + 128;
    ((luma(r, g, b) as u16) << 8u16) | (chroma as u16)
}

/// Converts one RGB pixel to its YUYV half-pair.
pub fn rgba2yuyv(pixel: i32, odd: bool) -> (res: u16)
    ensures
        res == yuyv_of(pixel, odd),
{
    let r = (pixel >> 16i32) & 0xff;
    let g = (pixel >> 8i32) & 0xff;
    let b = pixel & 0xff;
    assert(0 <= r <= 255 && 0 <= g <= 255 && 0 <= b <= 255) by (bit_vector)
        requires
            r == (pixel >> 16i32) & 0xff,
            g == (pixel >> 8i32) & 0xff,
            b == pixel & 0xff,
    ;
    let y = (YR * r + YG * g + YB * b) >> 16i32;
    let su = UR * r + UG * g + UB * b;
    let sv = VR * r + VG * g + VB * b;
    let u = su >> 16i32;
    let v = sv >> 16i32;
    assert(-0x8000 <= u <= 0x7fff && -0x8000 <= v <= 0x7fff) by (bit_vector)
        requires
            u == su >> 16i32,
            v == sv >> 16i32,
    ;
    let c = if odd {
        u
    } else {
        v
    };
    let chroma = c + 128;
    proof {
        reveal(yuyv_of);
    }
    ((y as u16) << 8u16) | (chroma as u16)
}

/// Integer division rounding toward zero, as the processor divides.
pub open spec fn div_toward_zero(a: int, d: int) -> int {
    if a >= 0 {
        a / d
    } else {
        -((-a) / d)
    }
}

/// The middle of an extent of `extent` pixels inside a margin of `p`.
pub open spec fn centre(p: int, extent: int) -> int {
    p + div_toward_zero(extent - p * 2, 2)
}

/// Whether pixel (`x`, `y`) of a `w` by `h` picture lies inside the margin
/// of `p` pixels, where the picture is drawn.
pub open spec fn inside_margin(x: int, y: int, w: int, h: int, p: int) -> bool {
    p <= x < w - p && p <= y < h - p
}

/// The smaller of the two centre coordinates.
pub open spec fn half_min(w: int, h: int, p: int) -> int {
    if centre(p, w) < centre(p, h) {
        centre(p, w)
    } else {
        centre(p, h)
    }
}

/// The RGB value of pixel (`x`, `y`) at `time`: inside the inner ring it
/// follows the distance from the centre, between the rings the row, and
/// outside the column; each moves with time. Overflow wraps.
#[verifier::opaque]
pub open spec fn ring_color(x: int, y: int, w: int, h: int, p: int, time: i32) -> i32 {
    let outer = half_min(w, h, p) - 8;
    let inner = outer - 32;
    let r2 = (x - centre(p, w)) * (x - centre(p, w)) + (y - centre(p, h)) * (y - centre(p, h));
    if r2 < inner * inner {
        ((r2 / 32) as i32).wrapping_add(div_toward_zero(time as int, 4) as i32).wrapping_mul(
            RING_STEP,
        )
    } else if r2 < outer * outer {
        (y as i32).wrapping_add(div_toward_zero(time as int, 2) as i32).wrapping_mul(RING_STEP)
    } else {
        (x as i32).wrapping_add(time).wrapping_mul(RING_STEP)
    }
}

/// Pixel (`x`, `y`) of the rows of width `w` in `s`.
pub open spec fn pixel_at(s: Seq<u16>, x: int, y: int, w: int) -> u16 {
    s[y * w + x]
}

/// The picture at `time` in the margin, `start` elsewhere.
pub open spec fn pixel_after(
    start: Seq<u16>,
    x: int,
    y: int,
    w: int,
    h: int,
    p: int,
    time: i32,
) -> u16 {
    if inside_margin(x, y, w, h, p) {
        yuyv_of(ring_color(x, y, w, h, p, time), x % 2 == 1)
    } else {
        pixel_at(start, x, y, w)
    }
}

/// `s` holds the picture at the pixels before (`x`, `y`) in row order and
/// `start` at the others.
pub open spec fn painted_upto(
    s: Seq<u16>,
    start: Seq<u16>,
    w: int,
    h: int,
    p: int,
    time: i32,
    x: int,
    y: int,
) -> bool {
    forall|xx: int, yy: int|
        0 <= xx < w && 0 <= yy < h ==> #[trigger] pixel_at(s, xx, yy, w) == if yy < y || (yy == y
            && xx < x) {
            pixel_after(start, xx, yy, w, h, p, time)
        } else {
            pixel_at(start, xx, yy, w)
        }
}

proof fn lemma_grid_index(x1: int, y1: int, x2: int, y2: int, w: int)
    requires
        0 <= x1 < w,
        0 <= x2 < w,
        0 <= y1,
        0 <= y2,
        y1 * w + x1 == y2 * w + x2,
    ensures
        x1 == x2,
        y1 == y2,
{
    if y1 < y2 {
        assert(y1 * w + x1 < y2 * w + x2) by (nonlinear_arith)
            requires
                0 <= x1 < w,
                0 <= x2,
                y1 < y2,
        ;
    } else if y2 < y1 {
        assert(y2 * w + x2 < y1 * w + x1) by (nonlinear_arith)
            requires
                0 <= x2 < w,
                0 <= x1,
                y2 < y1,
        ;
    }
}

proof fn lemma_in_grid(x: int, y: int, w: int, h: int)
    requires
        0 <= x < w,
        0 <= y < h,
    ensures
        0 <= y * w + x < w * h,
{
    assert(0 <= y * w + x < w * h) by (nonlinear_arith)
        requires
            0 <= x < w,
            0 <= y < h,
    ;
}

proof fn lemma_square_bound(a: int)
    requires
        -0x4000 <= a <= 0x4000,
    ensures
        0 <= a * a <= 0x1000_0000,
{
    assert(0 <= a * a <= 0x1000_0000) by (nonlinear_arith)
        requires
            -0x4000 <= a <= 0x4000,
    ;
}

proof fn lemma_paint_step(
    before: Seq<u16>,
    start: Seq<u16>,
    w: int,
    h: int,
    p: int,
    time: i32,
    x: int,
    y: int,
)
    requires
        before.len() == w * h,
        painted_upto(before, start, w, h, p, time, x, y),
        inside_margin(x, y, w, h, p),
        0 <= x < w,
        0 <= y < h,
    ensures
        painted_upto(
            before.update(y * w + x, yuyv_of(ring_color(x, y, w, h, p, time), x % 2 == 1)),
            start,
            w,
            h,
            p,
            time,
            x + 1,
            y,
        ),
{
    let after = before.update(y * w + x, yuyv_of(ring_color(x, y, w, h, p, time), x % 2 == 1));
    assert forall|xx: int, yy: int| 0 <= xx < w && 0 <= yy < h implies #[trigger] pixel_at(
        after,
        xx,
        yy,
        w,
    ) == if yy < y || (yy == y && xx < x + 1) {
        pixel_after(start, xx, yy, w, h, p, time)
    } else {
        pixel_at(start, xx, yy, w)
    } by {
        lemma_in_grid(xx, yy, w, h);
        lemma_in_grid(x, y, w, h);
        if yy * w + xx == y * w + x {
            lemma_grid_index(xx, yy, x, y, w);
        } else {
            assert(pixel_at(before, xx, yy, w) == pixel_at(after, xx, yy, w));
        }
    }
}

proof fn lemma_next_row(
    s: Seq<u16>,
    start: Seq<u16>,
    w: int,
    h: int,
    p: int,
    time: i32,
    x: int,
    y: int,
)
    requires
        0 <= p <= x,
        w - p <= x,
        painted_upto(s, start, w, h, p, time, x, y),
    ensures
        painted_upto(s, start, w, h, p, time, p, y + 1),
{
    assert forall|xx: int, yy: int| 0 <= xx < w && 0 <= yy < h implies #[trigger] pixel_at(
        s,
        xx,
        yy,
        w,
    ) == if yy < y + 1 || (yy == y + 1 && xx < p) {
        pixel_after(start, xx, yy, w, h, p, time)
    } else {
        pixel_at(start, xx, yy, w)
    } by {
        assert(pixel_at(s, xx, yy, w) == if yy < y || (yy == y && xx < x) {
            pixel_after(start, xx, yy, w, h, p, time)
        } else {
            pixel_at(start, xx, yy, w)
        });
    }
}

/// The colour of pixel (`x`, `y`), from the values computed once per
/// picture (`halfw`, the squared ring radii, the time steps) and per row
/// (`y2`).
fn ring_value(
    x: i32,
    y: i32,
    y2: i32,
    halfw: i32,
    inner: i32,
    outer: i32,
    quarter: i32,
    half: i32,
    time: i32,
    Ghost(w): Ghost<int>,
    Ghost(h): Ghost<int>,
    Ghost(p): Ghost<int>,
) -> (v: i32)
    requires
        0 <= x <= 0x1000,
        halfw == centre(p, w),
        -0x2000 <= halfw <= 0x2000,
        y2 == (y - centre(p, h)) * (y - centre(p, h)),
        0 <= y2 <= 0x1000_0000,
        inner == (half_min(w, h, p) - 40) * (half_min(w, h, p) - 40),
        outer == (half_min(w, h, p) - 8) * (half_min(w, h, p) - 8),
        quarter == div_toward_zero(time as int, 4),
        half == div_toward_zero(time as int, 2),
    ensures
        v == ring_color(x as int, y as int, w, h, p, time),
{
    proof {
        lemma_square_bound((x - halfw) as int);
        reveal(ring_color);
    }
    let r2 = (x - halfw) * (x - halfw) + y2;
    if r2 < inner {
        (r2 / 32).wrapping_add(quarter).wrapping_mul(RING_STEP)
    } else if r2 < outer {
        y.wrapping_add(half).wrapping_mul(RING_STEP)
    } else {
        x.wrapping_add(time).wrapping_mul(RING_STEP)
    }
}

/// Draws the rings at `time` inside a margin of `padding` pixels; pixels
/// in the margin are kept.
pub fn paint_pixels(xfb: &mut Xfb, padding: i32, time: i32)
    requires
        old(xfb).wf(),
        old(xfb).spec_width() <= 0x1000,
        old(xfb).spec_height() <= 0x1000,
        0 <= padding <= 0x1000,
    ensures
        final(xfb).wf(),
        final(xfb).spec_width() == old(xfb).spec_width(),
        final(xfb).spec_height() == old(xfb).spec_height(),
        forall|x: int, y: int|
            0 <= x < old(xfb).spec_width() && 0 <= y < old(xfb).spec_height() ==> #[trigger] pixel_at(
                final(xfb).spec_pixels(),
                x,
                y,
                old(xfb).spec_width() as int,
            ) == pixel_after(
                old(xfb).spec_pixels(),
                x,
                y,
                old(xfb).spec_width() as int,
                old(xfb).spec_height() as int,
                padding as int,
                time,
            ),
{
    let ghost w0 = xfb.spec_width() as int;
    let ghost h0 = xfb.spec_height() as int;
    let ghost p = padding as int;
    let ghost start = xfb.spec_pixels();
    let width = xfb.width() as i32;
    let height = xfb.height() as i32;
    let halfh = padding + (height - padding * 2) / 2;
    let halfw = padding + (width - padding * 2) / 2;
    assert(-0x2000 <= halfw <= 0x2000 && -0x2000 <= halfh <= 0x2000);
    let m = if halfw < halfh {
        halfw
    } else {
        halfh
    };
    proof {
        lemma_square_bound((m - 8) as int);
        lemma_square_bound((m - 40) as int);
    }
    let outer = (m - 8) * (m - 8);
    let inner = (m - 40) * (m - 40);
    let quarter = time / 4;
    let half = time / 2;
    let mut y = padding;
    proof {
        assert forall|xx: int, yy: int| 0 <= xx < w0 && 0 <= yy < h0 implies #[trigger] pixel_at(
            start,
            xx,
            yy,
            w0,
        ) == if yy < y || (yy == y && xx < p) {
            pixel_after(start, xx, yy, w0, h0, p, time)
        } else {
            pixel_at(start, xx, yy, w0)
        } by {}
    }
    while y < height - padding
        invariant
            xfb.wf(),
            xfb.spec_width() == w0,
            xfb.spec_height() == h0,
            w0 <= 0x1000,
            h0 <= 0x1000,
            width == w0,
            height == h0,
            p == padding,
            0 <= padding <= 0x1000,
            halfw == centre(p, w0),
            halfh == centre(p, h0),
            -0x2000 <= halfw <= 0x2000,
            -0x2000 <= halfh <= 0x2000,
            inner == (half_min(w0, h0, p) - 40) * (half_min(w0, h0, p) - 40),
            outer == (half_min(w0, h0, p) - 8) * (half_min(w0, h0, p) - 8),
            quarter == div_toward_zero(time as int, 4),
            half == div_toward_zero(time as int, 2),
            padding <= y,
            painted_upto(xfb.spec_pixels(), start, w0, h0, p, time, p, y as int),
        decreases height - padding - y,
    {
        proof {
            lemma_square_bound((y - halfh) as int);
        }
        let y2 = (y - halfh) * (y - halfh);
        let mut x = padding;
        while x < width - padding
            invariant
                xfb.wf(),
                xfb.spec_width() == w0,
                xfb.spec_height() == h0,
                w0 <= 0x1000,
                h0 <= 0x1000,
                width == w0,
                height == h0,
                p == padding,
                0 <= padding <= 0x1000,
                halfw == centre(p, w0),
                halfh == centre(p, h0),
                -0x2000 <= halfw <= 0x2000,
                -0x2000 <= halfh <= 0x2000,
                inner == (half_min(w0, h0, p) - 40) * (half_min(w0, h0, p) - 40),
                outer == (half_min(w0, h0, p) - 8) * (half_min(w0, h0, p) - 8),
                quarter == div_toward_zero(time as int, 4),
                half == div_toward_zero(time as int, 2),
                padding <= y < height - padding,
                y2 == (y - halfh) * (y - halfh),
                0 <= y2 <= 0x1000_0000,
                padding <= x,
                x <= width - padding || x == padding,
                painted_upto(xfb.spec_pixels(), start, w0, h0, p, time, x as int, y as int),
            decreases width - padding - x,
        {
            let v = ring_value(
                x,
                y,
                y2,
                halfw,
                inner,
                outer,
                quarter,
                half,
                time,
                Ghost(w0),
                Ghost(h0),
                Ghost(p),
            );
            assert(((x & 1) != 0) == (x % 2 == 1)) by (bit_vector)
                requires
                    x >= 0,
            ;
            let value = rgba2yuyv(v, (x & 1) != 0);
            proof {
                lemma_paint_step(xfb.spec_pixels(), start, w0, h0, p, time, x as int, y as int);
            }
            xfb.set_pixel(x as usize, y as usize, value);
            x = x + 1;
        }
        proof {
            lemma_next_row(xfb.spec_pixels(), start, w0, h0, p, time, x as int, y as int);
        }
        y = y + 1;
    }
    proof {
        assert forall|xx: int, yy: int| 0 <= xx < w0 && 0 <= yy < h0 implies #[trigger] pixel_at(
            xfb.spec_pixels(),
            xx,
            yy,
            w0,
        ) == pixel_after(start, xx, yy, w0, h0, p, time) by {
            if !(yy < y || (yy == y && xx < p)) {
                assert(!inside_margin(xx, yy, w0, h0, p));
            }
        }
    }
}

} // verus!
