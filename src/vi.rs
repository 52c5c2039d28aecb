//! The video interface: the external frame buffer it scans out, and the
//! register values that set it up for interlaced output.
//!
//! Register writes are listed as [`ViWrite`]s, by offset from `VI_BASE`,
//! for the caller to perform in order.

use vstd::prelude::*;

verus! {

/// Base address of the video interface registers.
pub const VI_BASE: u32 = 0xcc00_2000;

/// Offset of the register that tells which video mode the cable selects.
pub const VISEL_OFFSET: u32 = 0x6e;

pub const CONFIG_NTSC: u16 = 0;
pub const CONFIG_PAL: u16 = 0x100;
pub const CONFIG_MPAL: u16 = 0x200;
pub const CONFIG_DEBUG: u16 = 0x300;
pub const CONFIG_STEREO3D: u16 = 0x8;
pub const CONFIG_INTERLACED: u16 = 0;
pub const CONFIG_PROGRESSIVE: u16 = 0x4;
pub const CONFIG_RESET: u16 = 0x2;
pub const CONFIG_ENABLE: u16 = 0x1;

/// Frame buffer addresses from here on are given in 32-byte units.
pub const XFB_SHIFT_FROM: u32 = 0x0100_0000;

/// One register write.
#[derive(Clone, Copy, Debug, PartialEq, Eq)]
pub enum ViWrite {
    Half { offset: u32, half: u16 },
    Word { offset: u32, word: u32 },
}

/// The external frame buffer: `width` by `height` pixels in YUYV, two bytes
/// a pixel, row after row.
pub struct Xfb {
    width: usize,
    height: usize,
    pixels: Vec<u16>,
}

impl Xfb {
    pub closed spec fn spec_width(&self) -> usize {
        self.width
    }

    pub closed spec fn spec_height(&self) -> usize {
        self.height
    }

    pub closed spec fn spec_pixels(&self) -> Seq<u16> {
        self.pixels@
    }

    /// The pixels fill the grid, and the size in bytes fits.
    pub open spec fn wf(&self) -> bool {
        &&& self.spec_pixels().len() == self.spec_width() * self.spec_height()
        &&& self.spec_width() * 2 * self.spec_height() <= usize::MAX
        &&& self.spec_width() * 2 <= usize::MAX
    }

    /// A frame buffer of `width` by `height` pixels, all zero.
    pub fn allocate(width: usize, height: usize) -> (r: Xfb)
        requires
            width * 2 <= usize::MAX,
            width * 2 * height <= usize::MAX,
        ensures
            r.wf(),
            r.spec_width() == width,
            r.spec_height() == height,
            r.spec_pixels() == Seq::new((width * height) as nat, |i: int| 0u16),
    {
        assert(width * height <= width * 2 * height) by (nonlinear_arith);
        let n = width * height;
        let mut pixels: Vec<u16> = Vec::new();
        let mut i: usize = 0;
        while i < n
            invariant
                i <= n,
                pixels@ == Seq::new(i as nat, |j: int| 0u16),
            decreases n - i,
        {
            pixels.push(0);
            i = i + 1;
        }
        Xfb { width, height, pixels }
    }

    /// The width with which this frame buffer was allocated.
    pub fn width(&self) -> (r: usize)
        ensures
            r == self.spec_width(),
    {
        self.width
    }

    /// The height with which this frame buffer was allocated.
    pub fn height(&self) -> (r: usize)
        ensures
            r == self.spec_height(),
    {
        self.height
    }

    /// Bytes from one row to the next: always twice the width.
    pub fn stride(&self) -> (r: usize)
        requires
            self.wf(),
        ensures
            r == self.spec_width() * 2,
    {
        self.width * 2
    }

    /// The pixels, row after row.
    pub fn pixels(&self) -> (r: &[u16])
        ensures
            r@ == self.spec_pixels(),
    {
        self.pixels.as_slice()
    }

    /// Sets pixel (`x`, `y`).
    pub fn set_pixel(&mut self, x: usize, y: usize, value: u16)
        requires
            old(self).wf(),
            x < old(self).spec_width(),
            y < old(self).spec_height(),
        ensures
            final(self).wf(),
            final(self).spec_width() == old(self).spec_width(),
            final(self).spec_height() == old(self).spec_height(),
            final(self).spec_pixels() == old(self).spec_pixels().update(
                y * old(self).spec_width() + x,
                value,
            ),
    {
        proof {
            lemma_index_in_grid(x as int, y as int, self.width as int, self.height as int);
        }
        let i = y * self.width + x;
        self.pixels.set(i, value);
    }

    /// Sets every pixel to `value`.
    pub fn fill(&mut self, value: u16)
        requires
            old(self).wf(),
        ensures
            final(self).wf(),
            final(self).spec_width() == old(self).spec_width(),
            final(self).spec_height() == old(self).spec_height(),
            final(self).spec_pixels() == Seq::new(old(self).spec_pixels().len(), |i: int| value),
    {
        let n = self.pixels.len();
        let mut i: usize = 0;
        while i < n
            invariant
                n == self.pixels@.len(),
                n == old(self).pixels@.len(),
                i <= n,
                self.width == old(self).width,
                self.height == old(self).height,
                forall|j: int| 0 <= j < i ==> self.pixels@[j] == value,
            decreases n - i,
        {
            self.pixels.set(i, value);
            i = i + 1;
        }
        assert(self.pixels@ =~= Seq::new(n as nat, |j: int| value));
    }
}

proof fn lemma_index_in_grid(x: int, y: int, w: int, h: int)
    requires
        0 <= x < w,
        0 <= y < h,
    ensures
        y * w + x < w * h,
        w * h <= w * 2 * h,
        0 <= y * w + x,
{
    assert(w * h <= w * 2 * h) by (nonlinear_arith)
        requires
            0 <= w,
            0 <= h,
    ;
    assert(y * w + x < w * h) by (nonlinear_arith)
        requires
            0 <= x < w,
            0 <= y < h,
    ;
    assert(0 <= y * w) by (nonlinear_arith)
        requires
            0 <= y,
            0 <= w,
    ;
}

/// Vertical timing: half the height in bits 4.., the equalization pulse
/// length in bits 0..4.
pub fn vertical_timing(height: u16, equ: u16) -> (r: ViWrite)
    requires
        height <= 0xfff,
        equ <= 0xf,
    ensures
        r == (ViWrite::Half { offset: 0x00, half: (((height / 2) as u16) << 4u16) | equ }),
{
    ViWrite::Half { offset: 0x00, half: ((height / 2) << 4u16) | equ }
}

/// The display configuration register.
pub fn configure(flags: u16) -> (r: ViWrite)
    ensures
        r == (ViWrite::Half { offset: 0x02, half: flags }),
{
    ViWrite::Half { offset: 0x02, half: flags }
}

/// Horizontal timing: sync start, end and width of the two halves of a line.
pub fn horizontal_timing(s1: u32, e1: u32, w1: u32, s2: u32, e2: u32, w2: u32) -> (r: [ViWrite; 2])
    requires
        s1 <= 0x7f,
        e1 <= 0x7f,
        w1 <= 0x1ff,
        s2 <= 0x3ff,
        e2 <= 0x3ff,
        w2 <= 0x7f,
    ensures
        r == [
            ViWrite::Word { offset: 0x04, word: (s1 << 24u32) | (e1 << 16u32) | w1 },
            ViWrite::Word { offset: 0x08, word: (s2 << 17u32) | (e2 << 7u32) | w2 },
        ],
{
    [
        ViWrite::Word { offset: 0x04, word: (s1 << 24u32) | (e1 << 16u32) | w1 },
        ViWrite::Word { offset: 0x08, word: (s2 << 17u32) | (e2 << 7u32) | w2 },
    ]
}

/// Pre- and post-blanking of the two fields.
pub fn field_vertical_timing(psb1: u32, prb1: u32, psb2: u32, prb2: u32) -> (r: [ViWrite; 2])
    requires
        psb1 <= 0x3ff,
        prb1 <= 0x3ff,
        psb2 <= 0x3ff,
        prb2 <= 0x3ff,
    ensures
        r == [
            ViWrite::Word { offset: 0x0c, word: (psb1 << 16u32) | prb1 },
            ViWrite::Word { offset: 0x10, word: (psb2 << 16u32) | prb2 },
        ],
{
    [
        ViWrite::Word { offset: 0x0c, word: (psb1 << 16u32) | prb1 },
        ViWrite::Word { offset: 0x10, word: (psb2 << 16u32) | prb2 },
    ]
}

/// A burst blanking interval register: end and start of two fields' bursts.
pub open spec fn burst_value(be_a: u32, bs_a: u32, be_b: u32, bs_b: u32) -> u32 {
    (be_b << 21u32) | (bs_b << 16u32) | (be_a << 5u32) | bs_a
}

/// Burst blanking of fields 1 and 3.
pub fn burst_blanking_interval_1(be1: u32, bs1: u32, be3: u32, bs3: u32) -> (r: ViWrite)
    requires
        be1 <= 0x7ff,
        bs1 <= 0x1f,
        be3 <= 0x7ff,
        bs3 <= 0x1f,
    ensures
        r == (ViWrite::Word { offset: 0x14, word: burst_value(be1, bs1, be3, bs3) }),
{
    ViWrite::Word { offset: 0x14, word: (be3 << 21u32) | (bs3 << 16u32) | (be1 << 5u32) | bs1 }
}

/// Burst blanking of fields 2 and 4.
pub fn burst_blanking_interval_2(be2: u32, bs2: u32, be4: u32, bs4: u32) -> (r: ViWrite)
    requires
        be2 <= 0x7ff,
        bs2 <= 0x1f,
        be4 <= 0x7ff,
        bs4 <= 0x1f,
    ensures
        r == (ViWrite::Word { offset: 0x18, word: burst_value(be2, bs2, be4, bs4) }),
{
    ViWrite::Word { offset: 0x18, word: (be4 << 21u32) | (bs4 << 16u32) | (be2 << 5u32) | bs2 }
}

/// The frame buffer address register value for the field that starts at
/// `addr` (the bottom field one row further): low addresses as they are,
/// others in 32-byte units with bit 28 set.
pub open spec fn xfb_value(addr: u32, stride: u32, bottom: bool) -> u32 {
    let a = if bottom {
        (addr + stride) as u32
    } else {
        addr
    };
    if a < XFB_SHIFT_FROM {
        a
    } else {
        (1u32 << 28u32) | (a >> 5u32)
    }
}

/// The frame buffer address register of the top (`bottom` false) or bottom
/// field, for a frame buffer at bus address `addr` with rows of `stride`
/// bytes.
pub fn set_xfb(addr: u32, stride: u32, bottom: bool) -> (r: ViWrite)
    requires
        addr + stride <= u32::MAX,
    ensures
        r == (ViWrite::Word {
            offset: if bottom {
                0x24u32
            } else {
                0x1cu32
            },
            word: xfb_value(addr, stride, bottom),
        }),
{
    let mut a = addr;
    if bottom {
        a = a + stride;
    }
    let value = if a < XFB_SHIFT_FROM {
        a
    } else {
        (1u32 << 28u32) | (a >> 5u32)
    };
    ViWrite::Word {
        offset: if bottom {
            0x24
        } else {
            0x1c
        },
        word: value,
    }
}

/// The clock register: 0 for 27 MHz, 1 for 54 MHz.
pub fn set_clock(mhz: u16) -> (r: ViWrite)
    requires
        mhz == 27 || mhz == 54,
    ensures
        r == (ViWrite::Half {
            offset: 0x6c,
            half: if mhz == 27 {
                0u16
            } else {
                1u16
            },
        }),
{
    let value: u16 = if mhz == 27 {
        0
    } else {
        1
    };
    ViWrite::Half { offset: 0x6c, half: value }
}

/// The register program that sets up interlaced output of a `height`-line
/// frame buffer at bus address `addr`, with rows of `stride` bytes.
pub open spec fn interlaced_program(height: u16, addr: u32, stride: u32) -> Seq<ViWrite> {
    seq![
        ViWrite::Half { offset: 0x00, half: (((height / 2) as u16) << 4u16) | 6 },
        ViWrite::Half { offset: 0x02, half: CONFIG_PAL | CONFIG_INTERLACED | CONFIG_ENABLE },
        ViWrite::Word { offset: 0x04, word: (71u32 << 24u32) | (105u32 << 16u32) | 429 },
        ViWrite::Word { offset: 0x08, word: (373u32 << 17u32) | (162u32 << 7u32) | 64 },
        ViWrite::Word { offset: 0x0c, word: (3u32 << 16u32) | 24 },
        ViWrite::Word { offset: 0x10, word: (2u32 << 16u32) | 25 },
        ViWrite::Word { offset: 0x14, word: burst_value(520, 12, 520, 12) },
        ViWrite::Word { offset: 0x18, word: burst_value(519, 13, 519, 13) },
        ViWrite::Word { offset: 0x1c, word: xfb_value(addr, stride, false) },
        ViWrite::Word { offset: 0x24, word: xfb_value(addr, stride, true) },
        ViWrite::Word { offset: 0x30, word: 0x1107_01ae },
        ViWrite::Word { offset: 0x34, word: 0x1001_0001 },
        ViWrite::Word { offset: 0x38, word: 0x0001_0001 },
        ViWrite::Word { offset: 0x3c, word: 0x0001_0001 },
        ViWrite::Half { offset: 0x48, half: 0x2850 },
        ViWrite::Half { offset: 0x4a, half: 0x0100 },
        ViWrite::Word { offset: 0x4c, word: 0x1ae7_71f0 },
        ViWrite::Word { offset: 0x50, word: 0x0db4_a574 },
        ViWrite::Word { offset: 0x54, word: 0x00c1_188e },
        ViWrite::Word { offset: 0x58, word: 0xc4c0_cbe2 },
        ViWrite::Word { offset: 0x5c, word: 0xfcec_decf },
        ViWrite::Word { offset: 0x60, word: 0x1313_0f08 },
        ViWrite::Word { offset: 0x64, word: 0x0008_0c0f },
        ViWrite::Word { offset: 0x68, word: 0x00ff_0000 },
        ViWrite::Half { offset: 0x6c, half: 0 },
        ViWrite::Half { offset: 0x72, half: 0 },
        ViWrite::Half { offset: 0x74, half: 0 },
    ]
}

fn setup_interlaced(height: u16, addr: u32, stride: u32) -> (r: Vec<ViWrite>)
    requires
        height <= 0xfff,
        addr + stride <= u32::MAX,
    ensures
        r@ == interlaced_program(height, addr, stride),
{
    let mut w: Vec<ViWrite> = Vec::new();
    w.push(vertical_timing(height, 6));
    w.push(configure(CONFIG_PAL | CONFIG_INTERLACED | CONFIG_ENABLE));
    let h = horizontal_timing(71, 105, 429, 373, 162, 64);
    w.push(h[0]);
    w.push(h[1]);
    let f = field_vertical_timing(3, 24, 2, 25);
    w.push(f[0]);
    w.push(f[1]);
    w.push(burst_blanking_interval_1(520, 12, 520, 12));
    w.push(burst_blanking_interval_2(519, 13, 519, 13));
    w.push(set_xfb(addr, stride, false));
    w.push(set_xfb(addr, stride, true));
    // Display interrupts.
    w.push(ViWrite::Word { offset: 0x30, word: 0x1107_01ae });
    w.push(ViWrite::Word { offset: 0x34, word: 0x1001_0001 });
    w.push(ViWrite::Word { offset: 0x38, word: 0x0001_0001 });
    w.push(ViWrite::Word { offset: 0x3c, word: 0x0001_0001 });
    // Scaled width: no scaling.
    w.push(ViWrite::Half { offset: 0x48, half: 0x2850 });
    w.push(ViWrite::Half { offset: 0x4a, half: 0x0100 });
    // Anti-aliasing filters.
    w.push(ViWrite::Word { offset: 0x4c, word: 0x1ae7_71f0 });
    w.push(ViWrite::Word { offset: 0x50, word: 0x0db4_a574 });
    w.push(ViWrite::Word { offset: 0x54, word: 0x00c1_188e });
    w.push(ViWrite::Word { offset: 0x58, word: 0xc4c0_cbe2 });
    w.push(ViWrite::Word { offset: 0x5c, word: 0xfcec_decf });
    w.push(ViWrite::Word { offset: 0x60, word: 0x1313_0f08 });
    w.push(ViWrite::Word { offset: 0x64, word: 0x0008_0c0f });
    w.push(ViWrite::Word { offset: 0x68, word: 0x00ff_0000 });
    w.push(set_clock(27));
    // No border.
    w.push(ViWrite::Half { offset: 0x72, half: 0 });
    w.push(ViWrite::Half { offset: 0x74, half: 0 });
    assert(w@ =~= interlaced_program(height, addr, stride));
    w
}

/// The video interface, scanning out its frame buffer.
pub struct Vi {
    xfb: Xfb,
}

impl Vi {
    /// The frame buffer.
    pub closed spec fn spec_xfb(&self) -> Xfb {
        self.xfb
    }

    /// Sets up interlaced output of `xfb`, whose pixels the caller has
    /// placed at bus address `addr`: the interface, and the register writes
    /// to perform.
    pub fn setup(xfb: Xfb, addr: u32) -> (r: (Vi, Vec<ViWrite>))
        requires
            xfb.wf(),
            xfb.spec_height() <= 0xfff,
            addr + xfb.spec_width() * 2 <= u32::MAX,
        ensures
            r.0.spec_xfb() == xfb,
            r.0.spec_xfb().wf(),
            r.1@ == interlaced_program(
                xfb.spec_height() as u16,
                addr,
                (xfb.spec_width() * 2) as u32,
            ),
    {
        let stride = xfb.stride() as u32;
        let writes = setup_interlaced(xfb.height() as u16, addr, stride);
        (Vi { xfb }, writes)
    }

    /// The frame buffer being scanned out.
    pub fn xfb(&mut self) -> (r: &mut Xfb)
        requires
            old(self).spec_xfb().wf(),
        ensures
            r.wf(),
            *r == old(self).spec_xfb(),
            final(self).spec_xfb() == *final(r),
    {
        &mut self.xfb
    }
}

} // verus!
