//! Conversions between the colour types.
use crate::binary_color::BinaryColor;
use crate::channel::{
    convert_channel,
    lemma_rescale_bounded,
    lemma_rescale_identity,
    lemma_rescale_round_trip,
    lemma_rescale_top,
    lemma_rescale_zero,
    rescale,
};
use crate::gray_color::Gray8;
use crate::rgb_color::{named_color, Bgr555, Bgr565, Bgr888, Rgb555, Rgb565, Rgb888, RgbColor};
use vstd::arithmetic::div_mod::lemma_small_mod;
use vstd::prelude::*;
use vstd::std_specs::convert::FromSpecImpl;

verus! {

/// `a` with each channel rescaled from the depth of `A` to the depth of `B`.
pub open spec fn convert_rgb_spec<A: RgbColor, B: RgbColor>(a: A) -> B {
    B::with_channels(
        rescale(a.red_value() as int, A::max_red() as int, B::max_red() as int) as u8,
        rescale(a.green_value() as int, A::max_green() as int, B::max_green() as int) as u8,
        rescale(a.blue_value() as int, A::max_blue() as int, B::max_blue() as int) as u8,
    )
}

/// The channels of `c` at eight bits, averaged with the remainder dropped.
pub open spec fn intensity_spec<C: RgbColor>(c: C) -> u8 {
    let full = convert_rgb_spec::<C, Rgb888>(c);
    ((full.red_value() + full.green_value() + full.blue_value()) / 3) as u8
}

/// The gray level taken as red, green and blue at eight bits and rescaled to
/// the depth of `C`.
pub open spec fn rgb_from_gray_spec<C: RgbColor>(gray: Gray8) -> C {
    C::with_channels(
        rescale(gray.luma() as int, 255, C::max_red() as int) as u8,
        rescale(gray.luma() as int, 255, C::max_green() as int) as u8,
        rescale(gray.luma() as int, 255, C::max_blue() as int) as u8,
    )
}

/// The gray level given by the intensity of `c`.
pub open spec fn gray_from_rgb_spec<C: RgbColor>(c: C) -> Gray8 {
    Gray8::with_luma(intensity_spec(c))
}

/// Black for `Off`, white for `On`.
pub open spec fn rgb_from_binary_spec<C: RgbColor>(bit: BinaryColor) -> C {
    match bit {
        BinaryColor::Off => named_color::<C>(false, false, false),
        BinaryColor::On => named_color::<C>(true, true, true),
    }
}

/// `On` where the intensity of `c` is at least 128, else `Off`.
pub open spec fn binary_from_rgb_spec<C: RgbColor>(c: C) -> BinaryColor {
    if intensity_spec(c) >= 128 {
        BinaryColor::On
    } else {
        BinaryColor::Off
    }
}

/// Whether every channel of `c` lies within its maximum.
pub open spec fn channels_in_range<C: RgbColor>(c: C) -> bool {
    &&& c.red_value() <= C::max_red()
    &&& c.green_value() <= C::max_green()
    &&& c.blue_value() <= C::max_blue()
}

/// Converts `a` to the colour type `B`, rescaling each channel on its own.
pub fn convert_rgb<A: RgbColor, B: RgbColor>(a: A) -> (b: B)
    ensures
        b == convert_rgb_spec::<A, B>(a),
{
    proof {
        A::lemma_maxima();
        B::lemma_maxima();
    }
    let r = convert_channel(a.r(), A::max_r(), B::max_r());
    let g = convert_channel(a.g(), A::max_g(), B::max_g());
    let b = convert_channel(a.b(), A::max_b(), B::max_b());
    proof {
        lemma_small_mod(r as nat, (B::max_red() + 1) as nat);
        lemma_small_mod(g as nat, (B::max_green() + 1) as nat);
        lemma_small_mod(b as nat, (B::max_blue() + 1) as nat);
    }
    B::new(r, g, b)
}

/// The intensity of `color`: its channels at eight bits, averaged with the
/// remainder dropped.
pub fn intensity<C: RgbColor>(color: C) -> (v: u8)
    ensures
        v == intensity_spec(color),
{
    let c: Rgb888 = convert_rgb(color);
    let sum: u16 = c.r() as u16 + c.g() as u16 + c.b() as u16;
    (sum / 3) as u8
}

/// Expands a gray level to the colour type `C`.
pub fn rgb_from_gray<C: RgbColor>(gray: Gray8) -> (c: C)
    ensures
        c == rgb_from_gray_spec::<C>(gray),
{
    let y = gray.y();
    let r = convert_channel(y, Gray8::MAX_Y, C::max_r());
    let g = convert_channel(y, Gray8::MAX_Y, C::max_g());
    let b = convert_channel(y, Gray8::MAX_Y, C::max_b());
    proof {
        lemma_small_mod(r as nat, (C::max_red() + 1) as nat);
        lemma_small_mod(g as nat, (C::max_green() + 1) as nat);
        lemma_small_mod(b as nat, (C::max_blue() + 1) as nat);
    }
    C::new(r, g, b)
}

/// Reduces `c` to the gray level of its intensity.
pub fn gray_from_rgb<C: RgbColor>(c: C) -> (gray: Gray8)
    ensures
        gray == gray_from_rgb_spec(c),
{
    Gray8::new(intensity(c))
}

/// Expands a binary colour to black or white of the colour type `C`.
pub fn rgb_from_binary<C: RgbColor>(bit: BinaryColor) -> (c: C)
    ensures
        c == rgb_from_binary_spec::<C>(bit),
{
    bit.map_color(C::black(), C::white())
}

/// Reduces `c` to a binary colour by its intensity, with the threshold at 128.
pub fn binary_from_rgb<C: RgbColor>(c: C) -> (bit: BinaryColor)
    ensures
        bit == binary_from_rgb_spec(c),
{
    if intensity(c) >= 128 {
        BinaryColor::On
    } else {
        BinaryColor::Off
    }
}

impl From<Bgr555> for Rgb555 {
    fn from(other: Bgr555) -> Self {
        convert_rgb(other)
    }
}

impl FromSpecImpl<Bgr555> for Rgb555 {
    open spec fn obeys_from_spec() -> bool {
        true
    }

    open spec fn from_spec(other: Bgr555) -> Self {
        convert_rgb_spec::<Bgr555, Rgb555>(other)
    }
}

impl From<Rgb565> for Rgb555 {
    fn from(other: Rgb565) -> Self {
        convert_rgb(other)
    }
}

impl FromSpecImpl<Rgb565> for Rgb555 {
    open spec fn obeys_from_spec() -> bool {
        true
    }

    open spec fn from_spec(other: Rgb565) -> Self {
        convert_rgb_spec::<Rgb565, Rgb555>(other)
    }
}

impl From<Bgr565> for Rgb555 {
    fn from(other: Bgr565) -> Self {
        convert_rgb(other)
    }
}

impl FromSpecImpl<Bgr565> for Rgb555 {
    open spec fn obeys_from_spec() -> bool {
        true
    }

    open spec fn from_spec(other: Bgr565) -> Self {
        convert_rgb_spec::<Bgr565, Rgb555>(other)
    }
}

impl From<Rgb888> for Rgb555 {
    fn from(other: Rgb888) -> Self {
        convert_rgb(other)
    }
}

impl FromSpecImpl<Rgb888> for Rgb555 {
    open spec fn obeys_from_spec() -> bool {
        true
    }

    open spec fn from_spec(other: Rgb888) -> Self {
        convert_rgb_spec::<Rgb888, Rgb555>(other)
    }
}

impl From<Bgr888> for Rgb555 {
    fn from(other: Bgr888) -> Self {
        convert_rgb(other)
    }
}

impl FromSpecImpl<Bgr888> for Rgb555 {
    open spec fn obeys_from_spec() -> bool {
        true
    }

    open spec fn from_spec(other: Bgr888) -> Self {
        convert_rgb_spec::<Bgr888, Rgb555>(other)
    }
}

impl From<Rgb555> for Bgr555 {
    fn from(other: Rgb555) -> Self {
        convert_rgb(other)
    }
}

impl FromSpecImpl<Rgb555> for Bgr555 {
    open spec fn obeys_from_spec() -> bool {
        true
    }

    open spec fn from_spec(other: Rgb555) -> Self {
        convert_rgb_spec::<Rgb555, Bgr555>(other)
    }
}

impl From<Rgb565> for Bgr555 {
    fn from(other: Rgb565) -> Self {
        convert_rgb(other)
    }
}

impl FromSpecImpl<Rgb565> for Bgr555 {
    open spec fn obeys_from_spec() -> bool {
        true
    }

    open spec fn from_spec(other: Rgb565) -> Self {
        convert_rgb_spec::<Rgb565, Bgr555>(other)
    }
}

impl From<Bgr565> for Bgr555 {
    fn from(other: Bgr565) -> Self {
        convert_rgb(other)
    }
}

impl FromSpecImpl<Bgr565> for Bgr555 {
    open spec fn obeys_from_spec() -> bool {
        true
    }

    open spec fn from_spec(other: Bgr565) -> Self {
        convert_rgb_spec::<Bgr565, Bgr555>(other)
    }
}

impl From<Rgb888> for Bgr555 {
    fn from(other: Rgb888) -> Self {
        convert_rgb(other)
    }
}

impl FromSpecImpl<Rgb888> for Bgr555 {
    open spec fn obeys_from_spec() -> bool {
        true
    }

    open spec fn from_spec(other: Rgb888) -> Self {
        convert_rgb_spec::<Rgb888, Bgr555>(other)
    }
}

impl From<Bgr888> for Bgr555 {
    fn from(other: Bgr888) -> Self {
        convert_rgb(other)
    }
}

impl FromSpecImpl<Bgr888> for Bgr555 {
    open spec fn obeys_from_spec() -> bool {
        true
    }

    open spec fn from_spec(other: Bgr888) -> Self {
        convert_rgb_spec::<Bgr888, Bgr555>(other)
    }
}

impl From<Rgb555> for Rgb565 {
    fn from(other: Rgb555) -> Self {
        convert_rgb(other)
    }
}

impl FromSpecImpl<Rgb555> for Rgb565 {
    open spec fn obeys_from_spec() -> bool {
        true
    }

    open spec fn from_spec(other: Rgb555) -> Self {
        convert_rgb_spec::<Rgb555, Rgb565>(other)
    }
}

impl From<Bgr555> for Rgb565 {
    fn from(other: Bgr555) -> Self {
        convert_rgb(other)
    }
}

impl FromSpecImpl<Bgr555> for Rgb565 {
    open spec fn obeys_from_spec() -> bool {
        true
    }

    open spec fn from_spec(other: Bgr555) -> Self {
        convert_rgb_spec::<Bgr555, Rgb565>(other)
    }
}

impl From<Bgr565> for Rgb565 {
    fn from(other: Bgr565) -> Self {
        convert_rgb(other)
    }
}

impl FromSpecImpl<Bgr565> for Rgb565 {
    open spec fn obeys_from_spec() -> bool {
        true
    }

    open spec fn from_spec(other: Bgr565) -> Self {
        convert_rgb_spec::<Bgr565, Rgb565>(other)
    }
}

impl From<Rgb888> for Rgb565 {
    fn from(other: Rgb888) -> Self {
        convert_rgb(other)
    }
}

impl FromSpecImpl<Rgb888> for Rgb565 {
    open spec fn obeys_from_spec() -> bool {
        true
    }

    open spec fn from_spec(other: Rgb888) -> Self {
        convert_rgb_spec::<Rgb888, Rgb565>(other)
    }
}

impl From<Bgr888> for Rgb565 {
    fn from(other: Bgr888) -> Self {
        convert_rgb(other)
    }
}

impl FromSpecImpl<Bgr888> for Rgb565 {
    open spec fn obeys_from_spec() -> bool {
        true
    }

    open spec fn from_spec(other: Bgr888) -> Self {
        convert_rgb_spec::<Bgr888, Rgb565>(other)
    }
}

impl From<Rgb555> for Bgr565 {
    fn from(other: Rgb555) -> Self {
        convert_rgb(other)
    }
}

impl FromSpecImpl<Rgb555> for Bgr565 {
    open spec fn obeys_from_spec() -> bool {
        true
    }

    open spec fn from_spec(other: Rgb555) -> Self {
        convert_rgb_spec::<Rgb555, Bgr565>(other)
    }
}

impl From<Bgr555> for Bgr565 {
    fn from(other: Bgr555) -> Self {
        convert_rgb(other)
    }
}

impl FromSpecImpl<Bgr555> for Bgr565 {
    open spec fn obeys_from_spec() -> bool {
        true
    }

    open spec fn from_spec(other: Bgr555) -> Self {
        convert_rgb_spec::<Bgr555, Bgr565>(other)
    }
}

impl From<Rgb565> for Bgr565 {
    fn from(other: Rgb565) -> Self {
        convert_rgb(other)
    }
}

impl FromSpecImpl<Rgb565> for Bgr565 {
    open spec fn obeys_from_spec() -> bool {
        true
    }

    open spec fn from_spec(other: Rgb565) -> Self {
        convert_rgb_spec::<Rgb565, Bgr565>(other)
    }
}

impl From<Rgb888> for Bgr565 {
    fn from(other: Rgb888) -> Self {
        convert_rgb(other)
    }
}

impl FromSpecImpl<Rgb888> for Bgr565 {
    open spec fn obeys_from_spec() -> bool {
        true
    }

    open spec fn from_spec(other: Rgb888) -> Self {
        convert_rgb_spec::<Rgb888, Bgr565>(other)
    }
}

impl From<Bgr888> for Bgr565 {
    fn from(other: Bgr888) -> Self {
        convert_rgb(other)
    }
}

impl FromSpecImpl<Bgr888> for Bgr565 {
    open spec fn obeys_from_spec() -> bool {
        true
    }

    open spec fn from_spec(other: Bgr888) -> Self {
        convert_rgb_spec::<Bgr888, Bgr565>(other)
    }
}

impl From<Rgb555> for Rgb888 {
    fn from(other: Rgb555) -> Self {
        convert_rgb(other)
    }
}

impl FromSpecImpl<Rgb555> for Rgb888 {
    open spec fn obeys_from_spec() -> bool {
        true
    }

    open spec fn from_spec(other: Rgb555) -> Self {
        convert_rgb_spec::<Rgb555, Rgb888>(other)
    }
}

impl From<Bgr555> for Rgb888 {
    fn from(other: Bgr555) -> Self {
        convert_rgb(other)
    }
}

impl FromSpecImpl<Bgr555> for Rgb888 {
    open spec fn obeys_from_spec() -> bool {
        true
    }

    open spec fn from_spec(other: Bgr555) -> Self {
        convert_rgb_spec::<Bgr555, Rgb888>(other)
    }
}

impl From<Rgb565> for Rgb888 {
    fn from(other: Rgb565) -> Self {
        convert_rgb(other)
    }
}

impl FromSpecImpl<Rgb565> for Rgb888 {
    open spec fn obeys_from_spec() -> bool {
        true
    }

    open spec fn from_spec(other: Rgb565) -> Self {
        convert_rgb_spec::<Rgb565, Rgb888>(other)
    }
}

impl From<Bgr565> for Rgb888 {
    fn from(other: Bgr565) -> Self {
        convert_rgb(other)
    }
}

impl FromSpecImpl<Bgr565> for Rgb888 {
    open spec fn obeys_from_spec() -> bool {
        true
    }

    open spec fn from_spec(other: Bgr565) -> Self {
        convert_rgb_spec::<Bgr565, Rgb888>(other)
    }
}

impl From<Bgr888> for Rgb888 {
    fn from(other: Bgr888) -> Self {
        convert_rgb(other)
    }
}

impl FromSpecImpl<Bgr888> for Rgb888 {
    open spec fn obeys_from_spec() -> bool {
        true
    }

    open spec fn from_spec(other: Bgr888) -> Self {
        convert_rgb_spec::<Bgr888, Rgb888>(other)
    }
}

impl From<Rgb555> for Bgr888 {
    fn from(other: Rgb555) -> Self {
        convert_rgb(other)
    }
}

impl FromSpecImpl<Rgb555> for Bgr888 {
    open spec fn obeys_from_spec() -> bool {
        true
    }

    open spec fn from_spec(other: Rgb555) -> Self {
        convert_rgb_spec::<Rgb555, Bgr888>(other)
    }
}

impl From<Bgr555> for Bgr888 {
    fn from(other: Bgr555) -> Self {
        convert_rgb(other)
    }
}

impl FromSpecImpl<Bgr555> for Bgr888 {
    open spec fn obeys_from_spec() -> bool {
        true
    }

    open spec fn from_spec(other: Bgr555) -> Self {
        convert_rgb_spec::<Bgr555, Bgr888>(other)
    }
}

impl From<Rgb565> for Bgr888 {
    fn from(other: Rgb565) -> Self {
        convert_rgb(other)
    }
}

impl FromSpecImpl<Rgb565> for Bgr888 {
    open spec fn obeys_from_spec() -> bool {
        true
    }

    open spec fn from_spec(other: Rgb565) -> Self {
        convert_rgb_spec::<Rgb565, Bgr888>(other)
    }
}

impl From<Bgr565> for Bgr888 {
    fn from(other: Bgr565) -> Self {
        convert_rgb(other)
    }
}

impl FromSpecImpl<Bgr565> for Bgr888 {
    open spec fn obeys_from_spec() -> bool {
        true
    }

    open spec fn from_spec(other: Bgr565) -> Self {
        convert_rgb_spec::<Bgr565, Bgr888>(other)
    }
}

impl From<Rgb888> for Bgr888 {
    fn from(other: Rgb888) -> Self {
        convert_rgb(other)
    }
}

impl FromSpecImpl<Rgb888> for Bgr888 {
    open spec fn obeys_from_spec() -> bool {
        true
    }

    open spec fn from_spec(other: Rgb888) -> Self {
        convert_rgb_spec::<Rgb888, Bgr888>(other)
    }
}

impl From<Gray8> for Rgb555 {
    fn from(other: Gray8) -> Self {
        rgb_from_gray(other)
    }
}

impl FromSpecImpl<Gray8> for Rgb555 {
    open spec fn obeys_from_spec() -> bool {
        true
    }

    open spec fn from_spec(other: Gray8) -> Self {
        rgb_from_gray_spec::<Rgb555>(other)
    }
}

impl From<Rgb555> for Gray8 {
    fn from(other: Rgb555) -> Self {
        gray_from_rgb(other)
    }
}

impl FromSpecImpl<Rgb555> for Gray8 {
    open spec fn obeys_from_spec() -> bool {
        true
    }

    open spec fn from_spec(other: Rgb555) -> Self {
        gray_from_rgb_spec(other)
    }
}

impl From<BinaryColor> for Rgb555 {
    fn from(color: BinaryColor) -> Self {
        rgb_from_binary(color)
    }
}

impl FromSpecImpl<BinaryColor> for Rgb555 {
    open spec fn obeys_from_spec() -> bool {
        true
    }

    open spec fn from_spec(color: BinaryColor) -> Self {
        rgb_from_binary_spec::<Rgb555>(color)
    }
}

impl From<Rgb555> for BinaryColor {
    fn from(other: Rgb555) -> Self {
        binary_from_rgb(other)
    }
}

impl FromSpecImpl<Rgb555> for BinaryColor {
    open spec fn obeys_from_spec() -> bool {
        true
    }

    open spec fn from_spec(other: Rgb555) -> Self {
        binary_from_rgb_spec(other)
    }
}

impl From<Gray8> for Bgr555 {
    fn from(other: Gray8) -> Self {
        rgb_from_gray(other)
    }
}

impl FromSpecImpl<Gray8> for Bgr555 {
    open spec fn obeys_from_spec() -> bool {
        true
    }

    open spec fn from_spec(other: Gray8) -> Self {
        rgb_from_gray_spec::<Bgr555>(other)
    }
}

impl From<Bgr555> for Gray8 {
    fn from(other: Bgr555) -> Self {
        gray_from_rgb(other)
    }
}

impl FromSpecImpl<Bgr555> for Gray8 {
    open spec fn obeys_from_spec() -> bool {
        true
    }

    open spec fn from_spec(other: Bgr555) -> Self {
        gray_from_rgb_spec(other)
    }
}

impl From<BinaryColor> for Bgr555 {
    fn from(color: BinaryColor) -> Self {
        rgb_from_binary(color)
    }
}

impl FromSpecImpl<BinaryColor> for Bgr555 {
    open spec fn obeys_from_spec() -> bool {
        true
    }

    open spec fn from_spec(color: BinaryColor) -> Self {
        rgb_from_binary_spec::<Bgr555>(color)
    }
}

impl From<Bgr555> for BinaryColor {
    fn from(other: Bgr555) -> Self {
        binary_from_rgb(other)
    }
}

impl FromSpecImpl<Bgr555> for BinaryColor {
    open spec fn obeys_from_spec() -> bool {
        true
    }

    open spec fn from_spec(other: Bgr555) -> Self {
        binary_from_rgb_spec(other)
    }
}

impl From<Gray8> for Rgb565 {
    fn from(other: Gray8) -> Self {
        rgb_from_gray(other)
    }
}

impl FromSpecImpl<Gray8> for Rgb565 {
    open spec fn obeys_from_spec() -> bool {
        true
    }

    open spec fn from_spec(other: Gray8) -> Self {
        rgb_from_gray_spec::<Rgb565>(other)
    }
}

impl From<Rgb565> for Gray8 {
    fn from(other: Rgb565) -> Self {
        gray_from_rgb(other)
    }
}

impl FromSpecImpl<Rgb565> for Gray8 {
    open spec fn obeys_from_spec() -> bool {
        true
    }

    open spec fn from_spec(other: Rgb565) -> Self {
        gray_from_rgb_spec(other)
    }
}

impl From<BinaryColor> for Rgb565 {
    fn from(color: BinaryColor) -> Self {
        rgb_from_binary(color)
    }
}

impl FromSpecImpl<BinaryColor> for Rgb565 {
    open spec fn obeys_from_spec() -> bool {
        true
    }

    open spec fn from_spec(color: BinaryColor) -> Self {
        rgb_from_binary_spec::<Rgb565>(color)
    }
}

impl From<Rgb565> for BinaryColor {
    fn from(other: Rgb565) -> Self {
        binary_from_rgb(other)
    }
}

impl FromSpecImpl<Rgb565> for BinaryColor {
    open spec fn obeys_from_spec() -> bool {
        true
    }

    open spec fn from_spec(other: Rgb565) -> Self {
        binary_from_rgb_spec(other)
    }
}

impl From<Gray8> for Bgr565 {
    fn from(other: Gray8) -> Self {
        rgb_from_gray(other)
    }
}

impl FromSpecImpl<Gray8> for Bgr565 {
    open spec fn obeys_from_spec() -> bool {
        true
    }

    open spec fn from_spec(other: Gray8) -> Self {
        rgb_from_gray_spec::<Bgr565>(other)
    }
}

impl From<Bgr565> for Gray8 {
    fn from(other: Bgr565) -> Self {
        gray_from_rgb(other)
    }
}

impl FromSpecImpl<Bgr565> for Gray8 {
    open spec fn obeys_from_spec() -> bool {
        true
    }

    open spec fn from_spec(other: Bgr565) -> Self {
        gray_from_rgb_spec(other)
    }
}

impl From<BinaryColor> for Bgr565 {
    fn from(color: BinaryColor) -> Self {
        rgb_from_binary(color)
    }
}

impl FromSpecImpl<BinaryColor> for Bgr565 {
    open spec fn obeys_from_spec() -> bool {
        true
    }

    open spec fn from_spec(color: BinaryColor) -> Self {
        rgb_from_binary_spec::<Bgr565>(color)
    }
}

impl From<Bgr565> for BinaryColor {
    fn from(other: Bgr565) -> Self {
        binary_from_rgb(other)
    }
}

impl FromSpecImpl<Bgr565> for BinaryColor {
    open spec fn obeys_from_spec() -> bool {
        true
    }

    open spec fn from_spec(other: Bgr565) -> Self {
        binary_from_rgb_spec(other)
    }
}

impl From<Gray8> for Rgb888 {
    fn from(other: Gray8) -> Self {
        rgb_from_gray(other)
    }
}

impl FromSpecImpl<Gray8> for Rgb888 {
    open spec fn obeys_from_spec() -> bool {
        true
    }

    open spec fn from_spec(other: Gray8) -> Self {
        rgb_from_gray_spec::<Rgb888>(other)
    }
}

impl From<Rgb888> for Gray8 {
    fn from(other: Rgb888) -> Self {
        gray_from_rgb(other)
    }
}

impl FromSpecImpl<Rgb888> for Gray8 {
    open spec fn obeys_from_spec() -> bool {
        true
    }

    open spec fn from_spec(other: Rgb888) -> Self {
        gray_from_rgb_spec(other)
    }
}

impl From<BinaryColor> for Rgb888 {
    fn from(color: BinaryColor) -> Self {
        rgb_from_binary(color)
    }
}

impl FromSpecImpl<BinaryColor> for Rgb888 {
    open spec fn obeys_from_spec() -> bool {
        true
    }

    open spec fn from_spec(color: BinaryColor) -> Self {
        rgb_from_binary_spec::<Rgb888>(color)
    }
}

impl From<Rgb888> for BinaryColor {
    fn from(other: Rgb888) -> Self {
        binary_from_rgb(other)
    }
}

impl FromSpecImpl<Rgb888> for BinaryColor {
    open spec fn obeys_from_spec() -> bool {
        true
    }

    open spec fn from_spec(other: Rgb888) -> Self {
        binary_from_rgb_spec(other)
    }
}

impl From<Gray8> for Bgr888 {
    fn from(other: Gray8) -> Self {
        rgb_from_gray(other)
    }
}

impl FromSpecImpl<Gray8> for Bgr888 {
    open spec fn obeys_from_spec() -> bool {
        true
    }

    open spec fn from_spec(other: Gray8) -> Self {
        rgb_from_gray_spec::<Bgr888>(other)
    }
}

impl From<Bgr888> for Gray8 {
    fn from(other: Bgr888) -> Self {
        gray_from_rgb(other)
    }
}

impl FromSpecImpl<Bgr888> for Gray8 {
    open spec fn obeys_from_spec() -> bool {
        true
    }

    open spec fn from_spec(other: Bgr888) -> Self {
        gray_from_rgb_spec(other)
    }
}

impl From<BinaryColor> for Bgr888 {
    fn from(color: BinaryColor) -> Self {
        rgb_from_binary(color)
    }
}

impl FromSpecImpl<BinaryColor> for Bgr888 {
    open spec fn obeys_from_spec() -> bool {
        true
    }

    open spec fn from_spec(color: BinaryColor) -> Self {
        rgb_from_binary_spec::<Bgr888>(color)
    }
}

impl From<Bgr888> for BinaryColor {
    fn from(other: Bgr888) -> Self {
        binary_from_rgb(other)
    }
}

impl FromSpecImpl<Bgr888> for BinaryColor {
    open spec fn obeys_from_spec() -> bool {
        true
    }

    open spec fn from_spec(other: Bgr888) -> Self {
        binary_from_rgb_spec(other)
    }
}

/// A colour whose channels are each zero or full (black, white, the primaries
/// and their mixes) converts to the colour of the target type with the same
/// channels zero and full.
pub proof fn lemma_named_colors_convert<A: RgbColor, B: RgbColor>(
    red_on: bool,
    green_on: bool,
    blue_on: bool,
)
    ensures
        convert_rgb_spec::<A, B>(named_color::<A>(red_on, green_on, blue_on)) == named_color::<B>(
            red_on,
            green_on,
            blue_on,
        ),
{
    A::lemma_maxima();
    B::lemma_maxima();
    let r: u8 = if red_on { A::max_red() } else { 0 };
    let g: u8 = if green_on { A::max_green() } else { 0 };
    let b: u8 = if blue_on { A::max_blue() } else { 0 };
    A::lemma_channels(r, g, b);
    lemma_rescale_zero(A::max_red() as int, B::max_red() as int);
    lemma_rescale_zero(A::max_green() as int, B::max_green() as int);
    lemma_rescale_zero(A::max_blue() as int, B::max_blue() as int);
    lemma_rescale_top(A::max_red() as int, B::max_red() as int);
    lemma_rescale_top(A::max_green() as int, B::max_green() as int);
    lemma_rescale_top(A::max_blue() as int, B::max_blue() as int);
}

/// Converting a colour to a type with channels at least as deep, and back,
/// gives the colour again.
pub proof fn lemma_round_trip<A: RgbColor, B: RgbColor>(c: A)
    requires
        channels_in_range(c),
        A::max_red() <= B::max_red(),
        A::max_green() <= B::max_green(),
        A::max_blue() <= B::max_blue(),
    ensures
        convert_rgb_spec::<B, A>(convert_rgb_spec::<A, B>(c)) == c,
{
    A::lemma_maxima();
    B::lemma_maxima();
    let (r, g, b) = (c.red_value() as int, c.green_value() as int, c.blue_value() as int);
    let (mr, mg, mb) = (A::max_red() as int, A::max_green() as int, A::max_blue() as int);
    let (wr, wg, wb) = (B::max_red() as int, B::max_green() as int, B::max_blue() as int);
    lemma_rescale_bounded(r, mr, wr);
    lemma_rescale_bounded(g, mg, wg);
    lemma_rescale_bounded(b, mb, wb);
    B::lemma_channels(rescale(r, mr, wr) as u8, rescale(g, mg, wg) as u8, rescale(b, mb, wb) as u8);
    lemma_rescale_round_trip(r, mr, wr);
    lemma_rescale_round_trip(g, mg, wg);
    lemma_rescale_round_trip(b, mb, wb);
    A::lemma_determined(c);
}

/// Between two types with the same depth for each channel, a conversion keeps
/// the red, green and blue magnitudes, whatever order the types store them in.
pub proof fn lemma_channel_order<A: RgbColor, B: RgbColor>(c: A)
    requires
        channels_in_range(c),
        A::max_red() == B::max_red(),
        A::max_green() == B::max_green(),
        A::max_blue() == B::max_blue(),
    ensures
        convert_rgb_spec::<A, B>(c) == B::with_channels(
            c.red_value(),
            c.green_value(),
            c.blue_value(),
        ),
{
    A::lemma_maxima();
    lemma_rescale_identity(c.red_value() as int, A::max_red() as int);
    lemma_rescale_identity(c.green_value() as int, A::max_green() as int);
    lemma_rescale_identity(c.blue_value() as int, A::max_blue() as int);
}

/// The intensity of a colour whose channels are each zero or full: 255 for
/// each full channel, summed and divided by three.
proof fn lemma_named_intensity<C: RgbColor>(red_on: bool, green_on: bool, blue_on: bool)
    ensures
        intensity_spec(named_color::<C>(red_on, green_on, blue_on)) == ((if red_on {
            255int
        } else {
            0
        }) + (if green_on {
            255int
        } else {
            0
        }) + (if blue_on {
            255int
        } else {
            0
        })) / 3,
{
    lemma_named_colors_convert::<C, Rgb888>(red_on, green_on, blue_on);
}

/// Black and white reduce to the gray levels 0 and 255, and those expand back
/// to black and white.
pub proof fn lemma_gray_endpoints<C: RgbColor>()
    ensures
        gray_from_rgb_spec(named_color::<C>(false, false, false)) == Gray8::with_luma(0),
        gray_from_rgb_spec(named_color::<C>(true, true, true)) == Gray8::with_luma(255),
        rgb_from_gray_spec::<C>(Gray8::with_luma(0)) == named_color::<C>(false, false, false),
        rgb_from_gray_spec::<C>(Gray8::with_luma(255)) == named_color::<C>(true, true, true),
{
    lemma_named_intensity::<C>(false, false, false);
    lemma_named_intensity::<C>(true, true, true);
    lemma_rescale_zero(255, C::max_red() as int);
    lemma_rescale_zero(255, C::max_green() as int);
    lemma_rescale_zero(255, C::max_blue() as int);
    lemma_rescale_top(255, C::max_red() as int);
    lemma_rescale_top(255, C::max_green() as int);
    lemma_rescale_top(255, C::max_blue() as int);
}

/// Red reduces to the gray level 85 (255 / 3, truncated) and yellow to 170.
pub proof fn lemma_primary_intensity<C: RgbColor>()
    ensures
        gray_from_rgb_spec(named_color::<C>(true, false, false)) == Gray8::with_luma(85),
        gray_from_rgb_spec(named_color::<C>(true, true, false)) == Gray8::with_luma(170),
{
    lemma_named_intensity::<C>(true, false, false);
    lemma_named_intensity::<C>(true, true, false);
}

/// Black and red fall below the binary threshold; white and yellow reach it.
pub proof fn lemma_binary_threshold<C: RgbColor>()
    ensures
        binary_from_rgb_spec(named_color::<C>(false, false, false)) == BinaryColor::Off,
        binary_from_rgb_spec(named_color::<C>(true, true, true)) == BinaryColor::On,
        binary_from_rgb_spec(named_color::<C>(true, false, false)) == BinaryColor::Off,
        binary_from_rgb_spec(named_color::<C>(true, true, false)) == BinaryColor::On,
{
    lemma_named_intensity::<C>(false, false, false);
    lemma_named_intensity::<C>(true, true, true);
    lemma_named_intensity::<C>(true, false, false);
    lemma_named_intensity::<C>(true, true, false);
}

/// `Off` expands to black and `On` to white.
pub proof fn lemma_binary_expansion<C: RgbColor>()
    ensures
        rgb_from_binary_spec::<C>(BinaryColor::Off) == named_color::<C>(false, false, false),
        rgb_from_binary_spec::<C>(BinaryColor::On) == named_color::<C>(true, true, true),
{
}

} // verus!
