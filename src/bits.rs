//! Single-bit and bit-region helpers over 32-bit register words.

use vstd::prelude::*;

verus! {

/// Whether bit `b` (bit 0 is the least significant) of `w` is set.
pub open spec fn bit_of(w: u32, b: u32) -> bool {
    w & (1u32 << b) != 0
}

/// `w` with bit `b` set to `v` and every other bit kept.
pub open spec fn set_bit_to(w: u32, b: u32, v: bool) -> u32 {
    if v {
        w | (1u32 << b)
    } else {
        w & !(1u32 << b)
    }
}

/// The mask of bits `low..=high`.
pub open spec fn region_mask(low: u32, high: u32) -> u32 {
    (u32::MAX >> ((31 - (high - low)) as u32)) << low
}

/// Relies on `bitfrob::u32_get_bit`: tests bit `b` of `u`; it panics when `b >= 32`.
#[verifier::external_body]
pub(crate) fn get_bit(b: u32, u: u32) -> (r: bool)
    requires
        b < 32,
    ensures
        r == (u & (1u32 << b) != 0),
{
    bitfrob::u32_get_bit(b, u)
}

/// Relies on `bitfrob::u32_with_bit`: clears bit `b` of `u`, then ors in
/// `is_set` shifted to `b`; it panics when `b >= 32`.
#[verifier::external_body]
pub(crate) fn with_bit(b: u32, u: u32, is_set: bool) -> (r: u32)
    requires
        b < 32,
    ensures
        r == (u & !(1u32 << b)) | ((if is_set { 1u32 } else { 0u32 }) << b),
{
    bitfrob::u32_with_bit(b, u, is_set)
}

/// Relies on `bitfrob::u32_with_value`: replaces bits `low..=high` of `word`
/// with the low bits of `replacement`; it panics unless `low <= high < 32`.
#[verifier::external_body]
pub(crate) fn with_value(low: u32, high: u32, word: u32, replacement: u32) -> (r: u32)
    requires
        low <= high < 32,
    ensures
        r == (word & !region_mask(low, high)) | ((replacement << low) & region_mask(low, high)),
{
    bitfrob::u32_with_value(low, high, word, replacement)
}

/// The formula of `with_bit` is `set_bit_to`.
pub proof fn lemma_with_bit_is_set_bit_to(w: u32, b: u32, v: bool)
    requires
        b < 32,
    ensures
        (w & !(1u32 << b)) | ((if v { 1u32 } else { 0u32 }) << b) == set_bit_to(w, b, v),
{
    if v {
        assert((w & !(1u32 << b)) | (1u32 << b) == w | (1u32 << b)) by (bit_vector)
            requires b < 32;
    } else {
        assert((w & !(1u32 << b)) | (0u32 << b) == w & !(1u32 << b)) by (bit_vector)
            requires b < 32;
    }
}

} // verus!
