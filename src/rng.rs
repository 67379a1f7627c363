use vstd::prelude::*;

verus! {

/// Relies on `macroquad::rand::gen_range` (quad-rand's `RandomRange` for
/// `i32`): it scales a 32-bit draw by `(high - low) / 2^32`, adds `low` and
/// truncates, so for `0 <= low < high <= 2^20` the result lies in
/// `[low, high)`.
#[verifier::external_body]
pub(crate) fn gen_range(low: i32, high: i32) -> (r: i32)
    requires
        0 <= low < high <= 0x10_0000,
    ensures
        low <= r < high,
{
    macroquad::rand::gen_range(low, high)
}

} // verus!
