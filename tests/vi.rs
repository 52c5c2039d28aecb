use luma_core::vi::{
    burst_blanking_interval_1, horizontal_timing, set_clock, set_xfb, vertical_timing, Vi, ViWrite, Xfb,
};

#[test]
fn frame_buffer_geometry() {
    let xfb = Xfb::allocate(640, 480);
    assert_eq!(xfb.width(), 640);
    assert_eq!(xfb.height(), 480);
    assert_eq!(xfb.stride(), 1280);
    assert_eq!(xfb.pixels().len(), 640 * 480);
    assert!(xfb.pixels().iter().all(|p| *p == 0));
}

#[test]
fn frame_buffer_drawing() {
    let mut xfb = Xfb::allocate(4, 3);
    xfb.fill(0xff80);
    xfb.set_pixel(1, 2, 0x1234);
    assert_eq!(xfb.pixels()[2 * 4 + 1], 0x1234);
    assert_eq!(xfb.pixels().iter().filter(|p| **p == 0xff80).count(), 11);
}

#[test]
fn timing_register_values() {
    assert_eq!(vertical_timing(480, 6), ViWrite::Half { offset: 0, half: 0xf06 });
    assert_eq!(
        horizontal_timing(71, 105, 429, 373, 162, 64),
        [ViWrite::Word { offset: 4, word: 0x4769_01ad }, ViWrite::Word { offset: 8, word: 0x02ea_5140 }]
    );
    assert_eq!(burst_blanking_interval_1(520, 12, 520, 12), ViWrite::Word { offset: 0x14, word: 0x410c_410c });
    assert_eq!(set_clock(27), ViWrite::Half { offset: 0x6c, half: 0 });
    assert_eq!(set_clock(54), ViWrite::Half { offset: 0x6c, half: 1 });
}

#[test]
fn frame_buffer_address_values() {
    assert_eq!(set_xfb(0x0080_0000, 1280, false), ViWrite::Word { offset: 0x1c, word: 0x0080_0000 });
    assert_eq!(set_xfb(0x0080_0000, 1280, true), ViWrite::Word { offset: 0x24, word: 0x0080_0500 });
    assert_eq!(set_xfb(0x1000_0000, 1280, false), ViWrite::Word { offset: 0x1c, word: 0x1080_0000 });
    assert_eq!(set_xfb(0x1000_0000, 1280, true), ViWrite::Word { offset: 0x24, word: 0x1080_0028 });
}

#[test]
fn interlaced_setup_program() {
    let (mut vi, writes) = Vi::setup(Xfb::allocate(640, 480), 0x1000_0000);
    assert_eq!(writes.len(), 27);
    assert_eq!(writes[0], ViWrite::Half { offset: 0, half: 0xf06 });
    assert_eq!(writes[1], ViWrite::Half { offset: 2, half: 0x101 });
    assert_eq!(writes[8], ViWrite::Word { offset: 0x1c, word: 0x1080_0000 });
    assert_eq!(writes[9], ViWrite::Word { offset: 0x24, word: 0x1080_0028 });
    assert_eq!(writes[24], ViWrite::Half { offset: 0x6c, half: 0 });
    assert_eq!(vi.xfb().width(), 640);
}

use luma_core::draw::{paint_pixels, rgba2yuyv};

#[test]
fn yuyv_conversion_values() {
    assert_eq!(rgba2yuyv(0x00ff_ffff, false), 0xfe80);
    assert_eq!(rgba2yuyv(0x00ff_ffff, true), 0xfe80);
    assert_eq!(rgba2yuyv(0, true), 0x0080);
    assert_eq!(rgba2yuyv(0x00ff_0000, true), 0x4c54);
    assert_eq!(rgba2yuyv(0x00ff_0000, false), 0x4cff);
    assert_eq!(rgba2yuyv(0x7fff_0000, false), 0x4cff);
}

#[test]
fn rings_inside_the_margin() {
    let mut xfb = Xfb::allocate(100, 80);
    xfb.fill(0xff80);
    let time = 6;
    paint_pixels(&mut xfb, 10, time);
    let at = |x: usize, y: usize| xfb.pixels()[y * 100 + x];
    assert_eq!(at(9, 40), 0xff80);
    assert_eq!(at(50, 9), 0xff80);
    assert_eq!(at(90, 40), 0xff80);
    assert_eq!(at(50, 70), 0xff80);
    // Centre (50, 40): between the rings, coloured by the row.
    assert_eq!(at(50, 40), rgba2yuyv((40 + time / 2).wrapping_mul(0x0080401), false));
    // Corner of the margin: outside the rings, coloured by the column.
    assert_eq!(at(11, 11), rgba2yuyv((11 + time).wrapping_mul(0x0080401), true));
    assert_eq!(at(89, 69), rgba2yuyv((89 + time).wrapping_mul(0x0080401), true));
}

#[test]
fn rings_inner_disc() {
    let mut xfb = Xfb::allocate(200, 200);
    paint_pixels(&mut xfb, 0, -9);
    // Centre (100, 100), radii 92 and 60: the centre is in the inner disc.
    assert_eq!(xfb.pixels()[100 * 200 + 100], rgba2yuyv((0 + -9 / 4i32).wrapping_mul(0x0080401), false));
    let r2: i32 = 30 * 30;
    assert_eq!(xfb.pixels()[100 * 200 + 130], rgba2yuyv((r2 / 32 + -9 / 4i32).wrapping_mul(0x0080401), false));
}
