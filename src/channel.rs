//! Rescaling of one colour channel between bit depths.
use vstd::arithmetic::div_mod::{
    lemma_div_is_ordered,
    lemma_fundamental_div_mod,
    lemma_fundamental_div_mod_converse,
    lemma_mod_bound,
};
use vstd::prelude::*;

verus! {

/// The value nearest to `value * to_max / from_max`, halves rounded up.
pub open spec fn rescale(value: int, from_max: int, to_max: int) -> int {
    (value * to_max + from_max / 2) / from_max
}

/// Rescales `value` from the range `0..=from_max` to the range `0..=to_max`,
/// rounding to the nearest value with halves rounded up.
pub fn convert_channel(value: u8, from_max: u8, to_max: u8) -> (r: u8)
    requires
        1 <= from_max,
        value <= from_max,
    ensures
        r == rescale(value as int, from_max as int, to_max as int),
        r <= to_max,
{
    proof {
        lemma_rescale_bounded(value as int, from_max as int, to_max as int);
        assert(value as int * to_max as int <= 255 * 255) by (nonlinear_arith)
            requires
                value <= 255,
                to_max <= 255,
        ;
    }
    let scaled: u16 = value as u16 * to_max as u16 + from_max as u16 / 2;
    (scaled / from_max as u16) as u8
}

/// The rescaled value `q` is the one whose multiple `q * from_max` lies within
/// half a step below `value * to_max`.
proof fn lemma_rescale_bracket(value: int, from_max: int, to_max: int)
    requires
        1 <= from_max,
    ensures
        rescale(value, from_max, to_max) * from_max <= value * to_max + from_max / 2,
        value * to_max + from_max / 2 < rescale(value, from_max, to_max) * from_max + from_max,
{
    let x = value * to_max + from_max / 2;
    lemma_fundamental_div_mod(x, from_max);
    lemma_mod_bound(x, from_max);
    assert(from_max * (x / from_max) == (x / from_max) * from_max) by (nonlinear_arith);
}

/// Halving facts used with the rounding offset.
proof fn lemma_half(n: int)
    requires
        0 <= n,
    ensures
        2 * (n / 2) <= n,
        n <= 2 * (n / 2) + 1,
        0 <= n / 2,
{
    lemma_fundamental_div_mod(n, 2);
    lemma_mod_bound(n, 2);
}

/// Zero stays zero.
pub proof fn lemma_rescale_zero(from_max: int, to_max: int)
    requires
        1 <= from_max,
    ensures
        rescale(0, from_max, to_max) == 0,
{
    lemma_half(from_max);
    lemma_fundamental_div_mod_converse(from_max / 2, from_max, 0, from_max / 2);
}

/// The top of the source range goes to the top of the target range.
pub proof fn lemma_rescale_top(from_max: int, to_max: int)
    requires
        1 <= from_max,
    ensures
        rescale(from_max, from_max, to_max) == to_max,
{
    lemma_half(from_max);
    assert(from_max * to_max == to_max * from_max) by (nonlinear_arith);
    lemma_fundamental_div_mod_converse(
        from_max * to_max + from_max / 2,
        from_max,
        to_max,
        from_max / 2,
    );
}

/// Rescaling to the same range leaves the value as it is.
pub proof fn lemma_rescale_identity(value: int, max: int)
    requires
        1 <= max,
    ensures
        rescale(value, max, max) == value,
{
    lemma_half(max);
    lemma_fundamental_div_mod_converse(value * max + max / 2, max, value, max / 2);
}

/// A value of the source range lands in the target range.
pub proof fn lemma_rescale_bounded(value: int, from_max: int, to_max: int)
    requires
        1 <= from_max,
        0 <= value <= from_max,
        0 <= to_max,
    ensures
        0 <= rescale(value, from_max, to_max) <= to_max,
{
    let q = rescale(value, from_max, to_max);
    lemma_half(from_max);
    lemma_rescale_bracket(value, from_max, to_max);
    assert(0 <= value * to_max <= from_max * to_max) by (nonlinear_arith)
        requires
            0 <= value <= from_max,
            0 <= to_max,
    ;
    assert(0 <= q <= to_max) by (nonlinear_arith)
        requires
            q * from_max <= value * to_max + from_max / 2,
            value * to_max + from_max / 2 < q * from_max + from_max,
            0 <= value * to_max <= from_max * to_max,
            2 * (from_max / 2) <= from_max,
            0 <= from_max / 2,
            1 <= from_max,
    ;
}

/// A larger value never rescales to a smaller one.
pub proof fn lemma_rescale_monotonic(v: int, w: int, from_max: int, to_max: int)
    requires
        1 <= from_max,
        v <= w,
        0 <= to_max,
    ensures
        rescale(v, from_max, to_max) <= rescale(w, from_max, to_max),
{
    assert(v * to_max <= w * to_max) by (nonlinear_arith)
        requires
            v <= w,
            0 <= to_max,
    ;
    lemma_div_is_ordered(v * to_max + from_max / 2, w * to_max + from_max / 2, from_max);
}

/// Widening a value to a range at least as large and narrowing it back gives
/// the value again.
pub proof fn lemma_rescale_round_trip(value: int, narrow_max: int, wide_max: int)
    requires
        1 <= narrow_max <= wide_max,
        0 <= value <= narrow_max,
    ensures
        rescale(rescale(value, narrow_max, wide_max), wide_max, narrow_max) == value,
{
    let f = narrow_max;
    let t = wide_max;
    let x = rescale(value, f, t);
    if f == t {
        lemma_rescale_identity(value, f);
        lemma_rescale_identity(x, t);
    } else {
        lemma_rescale_bracket(value, f, t);
        lemma_half(f);
        lemma_half(t);
        lemma_div_is_ordered(f, t, 2);
        let r = x * f + t / 2 - value * t;
        assert(value * t == t * value) by (nonlinear_arith);
        assert(x * f == f * x) by (nonlinear_arith);
        lemma_fundamental_div_mod_converse(x * f + t / 2, t, value, r);
        assert(f * x + t / 2 == x * f + t / 2);
    }
}

} // verus!
