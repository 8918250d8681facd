//! Conversions between fixed bit-depth pixel colour types.
pub mod binary_color;
pub mod channel;
pub mod conversion;
pub mod gray_color;
pub mod rgb_color;
