//! Eight-bit grayscale colour.
use vstd::prelude::*;

verus! {

/// A gray level between 0 (black) and 255 (white).
#[derive(Clone, Copy, Debug, PartialEq, Eq, Structural)]
pub struct Gray8 {
    pub(crate) y: u8,
}

impl Gray8 {
    /// Largest gray level.
    pub const MAX_Y: u8 = 255;

    /// The gray level.
    pub open(crate) spec fn luma(self) -> u8 {
        self.y
    }

    /// The colour with the given gray level.
    pub open(crate) spec fn with_luma(y: u8) -> Self {
        Gray8 { y }
    }

    /// Builds a colour from its gray level.
    pub fn new(y: u8) -> (c: Self)
        ensures
            c == Self::with_luma(y),
    {
        Gray8 { y }
    }

    /// The gray level.
    pub fn y(&self) -> (v: u8)
        ensures
            v == self.luma(),
    {
        self.y
    }

    /// Black, gray level 0.
    pub fn black() -> (c: Self)
        ensures
            c == Self::with_luma(0),
    {
        Gray8 { y: 0 }
    }

    /// White, gray level 255.
    pub fn white() -> (c: Self)
        ensures
            c == Self::with_luma(Self::MAX_Y),
    {
        Gray8 { y: Self::MAX_Y }
    }
}

} // verus!
