//! Colour types with red, green and blue channels of fixed bit depth.
use vstd::prelude::*;

verus! {

/// A colour made of red, green and blue channels, each of which holds a value
/// between zero and the channel's maximum.
pub trait RgbColor: Sized {
    /// Largest value of the red channel.
    spec fn max_red() -> u8;

    /// Largest value of the green channel.
    spec fn max_green() -> u8;

    /// Largest value of the blue channel.
    spec fn max_blue() -> u8;

    /// Magnitude of the red channel.
    spec fn red_value(self) -> u8;

    /// Magnitude of the green channel.
    spec fn green_value(self) -> u8;

    /// Magnitude of the blue channel.
    spec fn blue_value(self) -> u8;

    /// The colour with the given channel magnitudes.
    spec fn with_channels(r: u8, g: u8, b: u8) -> Self;

    /// Every channel can hold more than zero.
    proof fn lemma_maxima()
        ensures
            1 <= Self::max_red(),
            1 <= Self::max_green(),
            1 <= Self::max_blue(),
    ;

    /// A colour built from channel values in range gives them back.
    proof fn lemma_channels(r: u8, g: u8, b: u8)
        requires
            r <= Self::max_red(),
            g <= Self::max_green(),
            b <= Self::max_blue(),
        ensures
            Self::with_channels(r, g, b).red_value() == r,
            Self::with_channels(r, g, b).green_value() == g,
            Self::with_channels(r, g, b).blue_value() == b,
    ;

    /// A colour is determined by its three channels.
    proof fn lemma_determined(c: Self)
        ensures
            c == Self::with_channels(c.red_value(), c.green_value(), c.blue_value()),
    ;

    /// Largest value of the red channel.
    fn max_r() -> (m: u8)
        ensures
            m == Self::max_red(),
    ;

    /// Largest value of the green channel.
    fn max_g() -> (m: u8)
        ensures
            m == Self::max_green(),
    ;

    /// Largest value of the blue channel.
    fn max_b() -> (m: u8)
        ensures
            m == Self::max_blue(),
    ;

    /// Builds a colour from its channel magnitudes, keeping of each only the
    /// low bits that the channel holds.
    fn new(r: u8, g: u8, b: u8) -> (c: Self)
        ensures
            c == Self::with_channels(
                (r as int % (Self::max_red() + 1)) as u8,
                (g as int % (Self::max_green() + 1)) as u8,
                (b as int % (Self::max_blue() + 1)) as u8,
            ),
    ;

    /// Magnitude of the red channel.
    fn r(&self) -> (v: u8)
        ensures
            v == self.red_value(),
            v <= Self::max_red(),
    ;

    /// Magnitude of the green channel.
    fn g(&self) -> (v: u8)
        ensures
            v == self.green_value(),
            v <= Self::max_green(),
    ;

    /// Magnitude of the blue channel.
    fn b(&self) -> (v: u8)
        ensures
            v == self.blue_value(),
            v <= Self::max_blue(),
    ;

    /// The colour black.
    fn black() -> (c: Self)
        ensures
            c == Self::with_channels(0, 0, 0),
    ;

    /// The colour red.
    fn red() -> (c: Self)
        ensures
            c == Self::with_channels(Self::max_red(), 0, 0),
    ;

    /// The colour green.
    fn green() -> (c: Self)
        ensures
            c == Self::with_channels(0, Self::max_green(), 0),
    ;

    /// The colour blue.
    fn blue() -> (c: Self)
        ensures
            c == Self::with_channels(0, 0, Self::max_blue()),
    ;

    /// The colour yellow.
    fn yellow() -> (c: Self)
        ensures
            c == Self::with_channels(Self::max_red(), Self::max_green(), 0),
    ;

    /// The colour magenta.
    fn magenta() -> (c: Self)
        ensures
            c == Self::with_channels(Self::max_red(), 0, Self::max_blue()),
    ;

    /// The colour cyan.
    fn cyan() -> (c: Self)
        ensures
            c == Self::with_channels(0, Self::max_green(), Self::max_blue()),
    ;

    /// The colour white.
    fn white() -> (c: Self)
        ensures
            c == Self::with_channels(Self::max_red(), Self::max_green(), Self::max_blue()),
    ;
}

/// The colour whose channels are each either zero or full, as selected.
pub open spec fn named_color<C: RgbColor>(red_on: bool, green_on: bool, blue_on: bool) -> C {
    C::with_channels(
        if red_on { C::max_red() } else { 0 },
        if green_on { C::max_green() } else { 0 },
        if blue_on { C::max_blue() } else { 0 },
    )
}

/// A colour with 5, 5 and 5 bits for red, green and blue, stored in the
/// order red, green, blue.
#[derive(Clone, Copy, Debug, PartialEq, Eq, Structural)]
pub struct Rgb555 {
    pub(crate) r: u8,
    pub(crate) g: u8,
    pub(crate) b: u8,
}

impl Rgb555 {
    #[verifier::type_invariant]
    spec fn channels_in_range(self) -> bool {
        self.r <= 31 && self.g <= 31 && self.b <= 31
    }
}

impl RgbColor for Rgb555 {
    open(crate) spec fn max_red() -> u8 {
        31
    }

    open(crate) spec fn max_green() -> u8 {
        31
    }

    open(crate) spec fn max_blue() -> u8 {
        31
    }

    open(crate) spec fn red_value(self) -> u8 {
        self.r
    }

    open(crate) spec fn green_value(self) -> u8 {
        self.g
    }

    open(crate) spec fn blue_value(self) -> u8 {
        self.b
    }

    open(crate) spec fn with_channels(r: u8, g: u8, b: u8) -> Self {
        Rgb555 { r, g, b }
    }

    proof fn lemma_maxima() {
    }

    proof fn lemma_channels(r: u8, g: u8, b: u8) {
    }

    proof fn lemma_determined(c: Self) {
    }

    fn max_r() -> (m: u8) {
        31
    }

    fn max_g() -> (m: u8) {
        31
    }

    fn max_b() -> (m: u8) {
        31
    }

    fn new(r: u8, g: u8, b: u8) -> (c: Self) {
        proof {
            assert(r & 31 == r % 32 && g & 31 == g % 32 && b & 31 == b % 32) by (bit_vector);
        }
        Rgb555 { r: r & 31, g: g & 31, b: b & 31 }
    }

    fn r(&self) -> (v: u8) {
        proof {
            use_type_invariant(self);
        }
        self.r
    }

    fn g(&self) -> (v: u8) {
        proof {
            use_type_invariant(self);
        }
        self.g
    }

    fn b(&self) -> (v: u8) {
        proof {
            use_type_invariant(self);
        }
        self.b
    }

    fn black() -> (c: Self) {
        Rgb555 { r: 0, g: 0, b: 0 }
    }

    fn red() -> (c: Self) {
        Rgb555 { r: 31, g: 0, b: 0 }
    }

    fn green() -> (c: Self) {
        Rgb555 { r: 0, g: 31, b: 0 }
    }

    fn blue() -> (c: Self) {
        Rgb555 { r: 0, g: 0, b: 31 }
    }

    fn yellow() -> (c: Self) {
        Rgb555 { r: 31, g: 31, b: 0 }
    }

    fn magenta() -> (c: Self) {
        Rgb555 { r: 31, g: 0, b: 31 }
    }

    fn cyan() -> (c: Self) {
        Rgb555 { r: 0, g: 31, b: 31 }
    }

    fn white() -> (c: Self) {
        Rgb555 { r: 31, g: 31, b: 31 }
    }
}

/// A colour with 5, 5 and 5 bits for red, green and blue, stored in the
/// order blue, green, red.
#[derive(Clone, Copy, Debug, PartialEq, Eq, Structural)]
pub struct Bgr555 {
    pub(crate) b: u8,
    pub(crate) g: u8,
    pub(crate) r: u8,
}

impl Bgr555 {
    #[verifier::type_invariant]
    spec fn channels_in_range(self) -> bool {
        self.r <= 31 && self.g <= 31 && self.b <= 31
    }
}

impl RgbColor for Bgr555 {
    open(crate) spec fn max_red() -> u8 {
        31
    }

    open(crate) spec fn max_green() -> u8 {
        31
    }

    open(crate) spec fn max_blue() -> u8 {
        31
    }

    open(crate) spec fn red_value(self) -> u8 {
        self.r
    }

    open(crate) spec fn green_value(self) -> u8 {
        self.g
    }

    open(crate) spec fn blue_value(self) -> u8 {
        self.b
    }

    open(crate) spec fn with_channels(r: u8, g: u8, b: u8) -> Self {
        Bgr555 { b, g, r }
    }

    proof fn lemma_maxima() {
    }

    proof fn lemma_channels(r: u8, g: u8, b: u8) {
    }

    proof fn lemma_determined(c: Self) {
    }

    fn max_r() -> (m: u8) {
        31
    }

    fn max_g() -> (m: u8) {
        31
    }

    fn max_b() -> (m: u8) {
        31
    }

    fn new(r: u8, g: u8, b: u8) -> (c: Self) {
        proof {
            assert(r & 31 == r % 32 && g & 31 == g % 32 && b & 31 == b % 32) by (bit_vector);
        }
        Bgr555 { b: b & 31, g: g & 31, r: r & 31 }
    }

    fn r(&self) -> (v: u8) {
        proof {
            use_type_invariant(self);
        }
        self.r
    }

    fn g(&self) -> (v: u8) {
        proof {
            use_type_invariant(self);
        }
        self.g
    }

    fn b(&self) -> (v: u8) {
        proof {
            use_type_invariant(self);
        }
        self.b
    }

    fn black() -> (c: Self) {
        Bgr555 { b: 0, g: 0, r: 0 }
    }

    fn red() -> (c: Self) {
        Bgr555 { b: 0, g: 0, r: 31 }
    }

    fn green() -> (c: Self) {
        Bgr555 { b: 0, g: 31, r: 0 }
    }

    fn blue() -> (c: Self) {
        Bgr555 { b: 31, g: 0, r: 0 }
    }

    fn yellow() -> (c: Self) {
        Bgr555 { b: 0, g: 31, r: 31 }
    }

    fn magenta() -> (c: Self) {
        Bgr555 { b: 31, g: 0, r: 31 }
    }

    fn cyan() -> (c: Self) {
        Bgr555 { b: 31, g: 31, r: 0 }
    }

    fn white() -> (c: Self) {
        Bgr555 { b: 31, g: 31, r: 31 }
    }
}

/// A colour with 5, 6 and 5 bits for red, green and blue, stored in the
/// order red, green, blue.
#[derive(Clone, Copy, Debug, PartialEq, Eq, Structural)]
pub struct Rgb565 {
    pub(crate) r: u8,
    pub(crate) g: u8,
    pub(crate) b: u8,
}

impl Rgb565 {
    #[verifier::type_invariant]
    spec fn channels_in_range(self) -> bool {
        self.r <= 31 && self.g <= 63 && self.b <= 31
    }
}

impl RgbColor for Rgb565 {
    open(crate) spec fn max_red() -> u8 {
        31
    }

    open(crate) spec fn max_green() -> u8 {
        63
    }

    open(crate) spec fn max_blue() -> u8 {
        31
    }

    open(crate) spec fn red_value(self) -> u8 {
        self.r
    }

    open(crate) spec fn green_value(self) -> u8 {
        self.g
    }

    open(crate) spec fn blue_value(self) -> u8 {
        self.b
    }

    open(crate) spec fn with_channels(r: u8, g: u8, b: u8) -> Self {
        Rgb565 { r, g, b }
    }

    proof fn lemma_maxima() {
    }

    proof fn lemma_channels(r: u8, g: u8, b: u8) {
    }

    proof fn lemma_determined(c: Self) {
    }

    fn max_r() -> (m: u8) {
        31
    }

    fn max_g() -> (m: u8) {
        63
    }

    fn max_b() -> (m: u8) {
        31
    }

    fn new(r: u8, g: u8, b: u8) -> (c: Self) {
        proof {
            assert(r & 31 == r % 32 && g & 63 == g % 64 && b & 31 == b % 32) by (bit_vector);
        }
        Rgb565 { r: r & 31, g: g & 63, b: b & 31 }
    }

    fn r(&self) -> (v: u8) {
        proof {
            use_type_invariant(self);
        }
        self.r
    }

    fn g(&self) -> (v: u8) {
        proof {
            use_type_invariant(self);
        }
        self.g
    }

    fn b(&self) -> (v: u8) {
        proof {
            use_type_invariant(self);
        }
        self.b
    }

    fn black() -> (c: Self) {
        Rgb565 { r: 0, g: 0, b: 0 }
    }

    fn red() -> (c: Self) {
        Rgb565 { r: 31, g: 0, b: 0 }
    }

    fn green() -> (c: Self) {
        Rgb565 { r: 0, g: 63, b: 0 }
    }

    fn blue() -> (c: Self) {
        Rgb565 { r: 0, g: 0, b: 31 }
    }

    fn yellow() -> (c: Self) {
        Rgb565 { r: 31, g: 63, b: 0 }
    }

    fn magenta() -> (c: Self) {
        Rgb565 { r: 31, g: 0, b: 31 }
    }

    fn cyan() -> (c: Self) {
        Rgb565 { r: 0, g: 63, b: 31 }
    }

    fn white() -> (c: Self) {
        Rgb565 { r: 31, g: 63, b: 31 }
    }
}

/// A colour with 5, 6 and 5 bits for red, green and blue, stored in the
/// order blue, green, red.
#[derive(Clone, Copy, Debug, PartialEq, Eq, Structural)]
pub struct Bgr565 {
    pub(crate) b: u8,
    pub(crate) g: u8,
    pub(crate) r: u8,
}

impl Bgr565 {
    #[verifier::type_invariant]
    spec fn channels_in_range(self) -> bool {
        self.r <= 31 && self.g <= 63 && self.b <= 31
    }
}

impl RgbColor for Bgr565 {
    open(crate) spec fn max_red() -> u8 {
        31
    }

    open(crate) spec fn max_green() -> u8 {
        63
    }

    open(crate) spec fn max_blue() -> u8 {
        31
    }

    open(crate) spec fn red_value(self) -> u8 {
        self.r
    }

    open(crate) spec fn green_value(self) -> u8 {
        self.g
    }

    open(crate) spec fn blue_value(self) -> u8 {
        self.b
    }

    open(crate) spec fn with_channels(r: u8, g: u8, b: u8) -> Self {
        Bgr565 { b, g, r }
    }

    proof fn lemma_maxima() {
    }

    proof fn lemma_channels(r: u8, g: u8, b: u8) {
    }

    proof fn lemma_determined(c: Self) {
    }

    fn max_r() -> (m: u8) {
        31
    }

    fn max_g() -> (m: u8) {
        63
    }

    fn max_b() -> (m: u8) {
        31
    }

    fn new(r: u8, g: u8, b: u8) -> (c: Self) {
        proof {
            assert(r & 31 == r % 32 && g & 63 == g % 64 && b & 31 == b % 32) by (bit_vector);
        }
        Bgr565 { b: b & 31, g: g & 63, r: r & 31 }
    }

    fn r(&self) -> (v: u8) {
        proof {
            use_type_invariant(self);
        }
        self.r
    }

    fn g(&self) -> (v: u8) {
        proof {
            use_type_invariant(self);
        }
        self.g
    }

    fn b(&self) -> (v: u8) {
        proof {
            use_type_invariant(self);
        }
        self.b
    }

    fn black() -> (c: Self) {
        Bgr565 { b: 0, g: 0, r: 0 }
    }

    fn red() -> (c: Self) {
        Bgr565 { b: 0, g: 0, r: 31 }
    }

    fn green() -> (c: Self) {
        Bgr565 { b: 0, g: 63, r: 0 }
    }

    fn blue() -> (c: Self) {
        Bgr565 { b: 31, g: 0, r: 0 }
    }

    fn yellow() -> (c: Self) {
        Bgr565 { b: 0, g: 63, r: 31 }
    }

    fn magenta() -> (c: Self) {
        Bgr565 { b: 31, g: 0, r: 31 }
    }

    fn cyan() -> (c: Self) {
        Bgr565 { b: 31, g: 63, r: 0 }
    }

    fn white() -> (c: Self) {
        Bgr565 { b: 31, g: 63, r: 31 }
    }
}

/// A colour with 8, 8 and 8 bits for red, green and blue, stored in the
/// order red, green, blue.
#[derive(Clone, Copy, Debug, PartialEq, Eq, Structural)]
pub struct Rgb888 {
    pub(crate) r: u8,
    pub(crate) g: u8,
    pub(crate) b: u8,
}

impl Rgb888 {
    #[verifier::type_invariant]
    spec fn channels_in_range(self) -> bool {
        self.r <= 255 && self.g <= 255 && self.b <= 255
    }
}

impl RgbColor for Rgb888 {
    open(crate) spec fn max_red() -> u8 {
        255
    }

    open(crate) spec fn max_green() -> u8 {
        255
    }

    open(crate) spec fn max_blue() -> u8 {
        255
    }

    open(crate) spec fn red_value(self) -> u8 {
        self.r
    }

    open(crate) spec fn green_value(self) -> u8 {
        self.g
    }

    open(crate) spec fn blue_value(self) -> u8 {
        self.b
    }

    open(crate) spec fn with_channels(r: u8, g: u8, b: u8) -> Self {
        Rgb888 { r, g, b }
    }

    proof fn lemma_maxima() {
    }

    proof fn lemma_channels(r: u8, g: u8, b: u8) {
    }

    proof fn lemma_determined(c: Self) {
    }

    fn max_r() -> (m: u8) {
        255
    }

    fn max_g() -> (m: u8) {
        255
    }

    fn max_b() -> (m: u8) {
        255
    }

    fn new(r: u8, g: u8, b: u8) -> (c: Self) {
        Rgb888 { r, g, b }
    }

    fn r(&self) -> (v: u8) {
        proof {
            use_type_invariant(self);
        }
        self.r
    }

    fn g(&self) -> (v: u8) {
        proof {
            use_type_invariant(self);
        }
        self.g
    }

    fn b(&self) -> (v: u8) {
        proof {
            use_type_invariant(self);
        }
        self.b
    }

    fn black() -> (c: Self) {
        Rgb888 { r: 0, g: 0, b: 0 }
    }

    fn red() -> (c: Self) {
        Rgb888 { r: 255, g: 0, b: 0 }
    }

    fn green() -> (c: Self) {
        Rgb888 { r: 0, g: 255, b: 0 }
    }

    fn blue() -> (c: Self) {
        Rgb888 { r: 0, g: 0, b: 255 }
    }

    fn yellow() -> (c: Self) {
        Rgb888 { r: 255, g: 255, b: 0 }
    }

    fn magenta() -> (c: Self) {
        Rgb888 { r: 255, g: 0, b: 255 }
    }

    fn cyan() -> (c: Self) {
        Rgb888 { r: 0, g: 255, b: 255 }
    }

    fn white() -> (c: Self) {
        Rgb888 { r: 255, g: 255, b: 255 }
    }
}

/// A colour with 8, 8 and 8 bits for red, green and blue, stored in the
/// order blue, green, red.
#[derive(Clone, Copy, Debug, PartialEq, Eq, Structural)]
pub struct Bgr888 {
    pub(crate) b: u8,
    pub(crate) g: u8,
    pub(crate) r: u8,
}

impl Bgr888 {
    #[verifier::type_invariant]
    spec fn channels_in_range(self) -> bool {
        self.r <= 255 && self.g <= 255 && self.b <= 255
    }
}

impl RgbColor for Bgr888 {
    open(crate) spec fn max_red() -> u8 {
        255
    }

    open(crate) spec fn max_green() -> u8 {
        255
    }

    open(crate) spec fn max_blue() -> u8 {
        255
    }

    open(crate) spec fn red_value(self) -> u8 {
        self.r
    }

    open(crate) spec fn green_value(self) -> u8 {
        self.g
    }

    open(crate) spec fn blue_value(self) -> u8 {
        self.b
    }

    open(crate) spec fn with_channels(r: u8, g: u8, b: u8) -> Self {
        Bgr888 { b, g, r }
    }

    proof fn lemma_maxima() {
    }

    proof fn lemma_channels(r: u8, g: u8, b: u8) {
    }

    proof fn lemma_determined(c: Self) {
    }

    fn max_r() -> (m: u8) {
        255
    }

    fn max_g() -> (m: u8) {
        255
    }

    fn max_b() -> (m: u8) {
        255
    }

    fn new(r: u8, g: u8, b: u8) -> (c: Self) {
        Bgr888 { b, g, r }
    }

    fn r(&self) -> (v: u8) {
        proof {
            use_type_invariant(self);
        }
        self.r
    }

    fn g(&self) -> (v: u8) {
        proof {
            use_type_invariant(self);
        }
        self.g
    }

    fn b(&self) -> (v: u8) {
        proof {
            use_type_invariant(self);
        }
        self.b
    }

    fn black() -> (c: Self) {
        Bgr888 { b: 0, g: 0, r: 0 }
    }

    fn red() -> (c: Self) {
        Bgr888 { b: 0, g: 0, r: 255 }
    }

    fn green() -> (c: Self) {
        Bgr888 { b: 0, g: 255, r: 0 }
    }

    fn blue() -> (c: Self) {
        Bgr888 { b: 255, g: 0, r: 0 }
    }

    fn yellow() -> (c: Self) {
        Bgr888 { b: 0, g: 255, r: 255 }
    }

    fn magenta() -> (c: Self) {
        Bgr888 { b: 255, g: 0, r: 255 }
    }

    fn cyan() -> (c: Self) {
        Bgr888 { b: 255, g: 255, r: 0 }
    }

    fn white() -> (c: Self) {
        Bgr888 { b: 255, g: 255, r: 255 }
    }
}

} // verus!
