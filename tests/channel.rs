use pixelcolor::binary_color::BinaryColor;
use pixelcolor::channel::convert_channel;
use pixelcolor::conversion::{binary_from_rgb, convert_rgb, gray_from_rgb, intensity, rgb_from_gray};
use pixelcolor::gray_color::Gray8;
use pixelcolor::rgb_color::{Bgr565, Bgr888, Rgb555, Rgb565, Rgb888, RgbColor};

#[test]
fn rescale_exact_values() {
    // (1 * 255 + 15) / 31 = 8
    assert_eq!(convert_channel(1, 31, 255), 8);
    // (16 * 63 + 15) / 31 = 33
    assert_eq!(convert_channel(16, 31, 63), 33);
    // (128 * 31 + 127) / 255 = 16
    assert_eq!(convert_channel(128, 255, 31), 16);
    // (4 * 31 + 127) / 255 = 0: below half a step rounds down
    assert_eq!(convert_channel(4, 255, 31), 0);
    // (5 * 31 + 127) / 255 = 1: at least half a step rounds up
    assert_eq!(convert_channel(5, 255, 31), 1);
}

#[test]
fn rescale_endpoints() {
    for (from_max, to_max) in [(31u8, 63u8), (31, 255), (63, 255), (255, 31), (255, 63), (63, 31)] {
        assert_eq!(convert_channel(0, from_max, to_max), 0);
        assert_eq!(convert_channel(from_max, from_max, to_max), to_max);
    }
}

#[test]
fn rescale_identity_and_monotonic() {
    for v in 0..=255u8 {
        assert_eq!(convert_channel(v, 255, 255), v);
        if v > 0 {
            assert!(convert_channel(v - 1, 255, 31) <= convert_channel(v, 255, 31));
        }
    }
}

#[test]
fn rescale_round_trips_five_and_six_bits() {
    for v in 0..=31u8 {
        assert_eq!(convert_channel(convert_channel(v, 31, 63), 63, 31), v);
        assert_eq!(convert_channel(convert_channel(v, 31, 255), 255, 31), v);
    }
    for v in 0..=63u8 {
        assert_eq!(convert_channel(convert_channel(v, 63, 255), 255, 63), v);
    }
}

#[test]
fn rgb555_round_trips_through_wider_types() {
    for v in 0..=31u8 {
        let c = Rgb555::new(v, 31 - v, v / 2);
        assert_eq!(Rgb555::from(Rgb565::from(c)), c);
        assert_eq!(Rgb555::from(Bgr888::from(c)), c);
    }
}

#[test]
fn channel_order_keeps_magnitudes() {
    let c = Rgb565::new(3, 40, 17);
    let d = Bgr565::from(c);
    assert_eq!((d.r(), d.g(), d.b()), (3, 40, 17));
    assert_eq!(d, Bgr565::new(3, 40, 17));
    let back: Rgb565 = convert_rgb(d);
    assert_eq!(back, c);

    let e = Bgr888::from(Rgb888::new(1, 2, 3));
    assert_eq!((e.r(), e.g(), e.b()), (1, 2, 3));
}

#[test]
fn rgb565_to_rgb888_exact() {
    let c = Rgb888::from(Rgb565::new(1, 1, 30));
    // red: (255 + 15) / 31 = 8; green: (255 + 31) / 63 = 4; blue: (30 * 255 + 15) / 31 = 247
    assert_eq!(c, Rgb888::new(8, 4, 247));
}

#[test]
fn intensity_truncates() {
    assert_eq!(intensity(Rgb888::new(1, 1, 0)), 0);
    assert_eq!(intensity(Rgb888::new(100, 50, 0)), 50);
    assert_eq!(intensity(Rgb888::new(255, 255, 255)), 255);
    // channels widened first: 31 -> 255, 0 -> 0
    assert_eq!(intensity(Rgb555::new(31, 0, 0)), 85);
    assert_eq!(intensity(Rgb565::green()), 85);
    assert_eq!(gray_from_rgb(Bgr888::new(10, 20, 31)), Gray8::new(20));
}

#[test]
fn gray_expands_per_channel_depth() {
    let c: Rgb565 = rgb_from_gray(Gray8::new(128));
    // red and blue: (128 * 31 + 127) / 255 = 16; green: (128 * 63 + 127) / 255 = 32
    assert_eq!(c, Rgb565::new(16, 32, 16));
    assert_eq!(Rgb888::from(Gray8::new(77)), Rgb888::new(77, 77, 77));
}

#[test]
fn binary_threshold_boundary() {
    assert_eq!(binary_from_rgb(Rgb888::new(128, 128, 128)), BinaryColor::On);
    assert_eq!(binary_from_rgb(Rgb888::new(128, 128, 127)), BinaryColor::Off);
    assert_eq!(BinaryColor::from(Rgb888::new(127, 127, 127)), BinaryColor::Off);
    assert_eq!(BinaryColor::from(Rgb565::cyan()), BinaryColor::On);
    assert_eq!(BinaryColor::from(Bgr565::blue()), BinaryColor::Off);
}

#[test]
fn binary_map_color_selects() {
    assert_eq!(BinaryColor::Off.map_color(1u8, 2u8), 1);
    assert_eq!(BinaryColor::On.map_color(1u8, 2u8), 2);
    assert_eq!(Gray8::new(9).y(), 9);
}

#[test]
fn new_keeps_low_bits() {
    assert_eq!(Rgb565::new(32, 64, 33), Rgb565::new(0, 0, 1));
    assert_eq!(Rgb555::new(63, 31, 0), Rgb555::new(31, 31, 0));
    assert_eq!(Rgb888::new(200, 100, 50).r(), 200);
}
