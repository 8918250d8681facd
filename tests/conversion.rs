use pixelcolor::binary_color::BinaryColor;
use pixelcolor::gray_color::Gray8;
use pixelcolor::rgb_color::{Bgr555, Bgr565, Bgr888, Rgb555, Rgb565, Rgb888, RgbColor};
use std::fmt::Debug;

fn check_constants<A, B>()
where
    A: RgbColor,
    B: RgbColor + From<A> + PartialEq + Debug,
{
    assert_eq!(B::from(A::black()), B::black());
    assert_eq!(B::from(A::red()), B::red());
    assert_eq!(B::from(A::green()), B::green());
    assert_eq!(B::from(A::blue()), B::blue());
    assert_eq!(B::from(A::yellow()), B::yellow());
    assert_eq!(B::from(A::magenta()), B::magenta());
    assert_eq!(B::from(A::cyan()), B::cyan());
    assert_eq!(B::from(A::white()), B::white());
}

fn check_constants_to_all<A>()
where
    A: RgbColor,
    Rgb555: From<A>,
    Bgr555: From<A>,
    Rgb565: From<A>,
    Bgr565: From<A>,
    Rgb888: From<A>,
    Bgr888: From<A>,
{
    check_constants::<A, Rgb555>();
    check_constants::<A, Bgr555>();
    check_constants::<A, Rgb565>();
    check_constants::<A, Bgr565>();
    check_constants::<A, Rgb888>();
    check_constants::<A, Bgr888>();
}

#[test]
fn rgb_color_constant_conversions() {
    check_constants_to_all::<Rgb555>();
    check_constants_to_all::<Bgr555>();
    check_constants_to_all::<Rgb565>();
    check_constants_to_all::<Bgr565>();
    check_constants_to_all::<Rgb888>();
    check_constants_to_all::<Bgr888>();
}

fn check_grayscale<C>()
where
    C: RgbColor + From<Gray8> + Into<Gray8> + PartialEq + Debug,
{
    // Gray8 to RGB
    assert_eq!(C::from(Gray8::black()), C::black());
    assert_eq!(C::from(Gray8::white()), C::white());

    // RGB to Gray8
    assert_eq!(Gray8::from(C::black().into()), Gray8::black());
    assert_eq!(Gray8::from(C::white().into()), Gray8::white());
    assert_eq!(Gray8::from(C::red().into()), Gray8::new(255 / 3));
    assert_eq!(Gray8::from(C::yellow().into()), Gray8::new(255 / 3 * 2));
}

#[test]
fn grayscale_conversions() {
    check_grayscale::<Rgb555>();
    check_grayscale::<Bgr555>();
    check_grayscale::<Rgb565>();
    check_grayscale::<Bgr565>();
    check_grayscale::<Rgb888>();
    check_grayscale::<Bgr888>();
}

#[test]
fn convert_rgb565_to_rgb888_and_back() {
    for r in 0..=63 {
        let c = Rgb565::new(r, 0, 0);
        let c2 = Rgb888::from(c);
        let c3 = Rgb565::from(c2);

        assert_eq!(c, c3);
    }

    for g in 0..=63 {
        let c = Rgb565::new(0, g, 0);
        let c2 = Rgb888::from(c);
        let c3 = Rgb565::from(c2);

        assert_eq!(c, c3);
    }

    for b in 0..=63 {
        let c = Rgb565::new(0, 0, b);
        let c2 = Rgb888::from(c);
        let c3 = Rgb565::from(c2);

        assert_eq!(c, c3);
    }
}

fn check_binary<C>()
where
    C: RgbColor + From<BinaryColor> + Into<BinaryColor> + PartialEq + Debug,
{
    // BinaryColor to RGB
    assert_eq!(C::from(BinaryColor::Off), C::black());
    assert_eq!(C::from(BinaryColor::On), C::white());

    // RGB to BinaryColor
    assert_eq!(C::black().into(), BinaryColor::Off);
    assert_eq!(C::white().into(), BinaryColor::On);
    assert_eq!(C::red().into(), BinaryColor::Off);
    assert_eq!(C::yellow().into(), BinaryColor::On);
}

#[test]
pub fn conversion_from_binary_color() {
    check_binary::<Rgb555>();
    check_binary::<Bgr555>();
    check_binary::<Rgb565>();
    check_binary::<Bgr565>();
    check_binary::<Rgb888>();
    check_binary::<Bgr888>();
}
