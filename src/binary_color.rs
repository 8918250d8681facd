//! Single-bit colour.
use vstd::prelude::*;

verus! {

/// A colour with two states, as used by monochrome displays.
#[derive(Clone, Copy, Debug, PartialEq, Eq, Structural)]
pub enum BinaryColor {
    /// The pixel is off.
    Off,
    /// The pixel is on.
    On,
}

impl BinaryColor {
    /// Selects `value_off` for `Off` and `value_on` for `On`.
    pub fn map_color<T>(self, value_off: T, value_on: T) -> (r: T)
        ensures
            r == (match self {
                BinaryColor::Off => value_off,
                BinaryColor::On => value_on,
            }),
    {
        match self {
            BinaryColor::Off => value_off,
            BinaryColor::On => value_on,
        }
    }
}

} // verus!
