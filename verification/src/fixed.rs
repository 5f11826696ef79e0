//! Fixed-point scalars.
//!
//! A scalar is an `i64` that counts thousandths: `1000` stands for one world
//! unit, `-2500` for minus two and a half. Sums are exact; a sum that would
//! leave the range of `i64` stays at the end of the range it ran into.

use vstd::prelude::*;

verus! {

/// The fixed-point value of one world unit.
pub const ONE: i64 = 1000;

/// The value of `v` held to the range of `i64`.
pub open spec fn saturate(v: int) -> i64 {
    if v < i64::MIN {
        i64::MIN
    } else if v > i64::MAX {
        i64::MAX
    } else {
        v as i64
    }
}

/// The point `p` moved by `(dx, dy, dz)`, each component saturating on its own.
pub open spec fn translated(p: [i64; 3], dx: i64, dy: i64, dz: i64) -> [i64; 3] {
    [saturate(p[0] + dx), saturate(p[1] + dy), saturate(p[2] + dz)]
}

/// Whether a move of `p` by `(dx, dy, dz)` stays inside the range of the
/// coordinates, so that no component saturates.
pub open spec fn stays_in_range(p: [i64; 3], dx: i64, dy: i64, dz: i64) -> bool {
    &&& i64::MIN <= p[0] + dx <= i64::MAX
    &&& i64::MIN <= p[1] + dy <= i64::MAX
    &&& i64::MIN <= p[2] + dz <= i64::MAX
}

/// Adds two scalars; the sum saturates at the ends of `i64`.
pub fn saturating_sum(a: i64, b: i64) -> (sum: i64)
    ensures
        sum == saturate(a + b),
{
    match a.checked_add(b) {
        Some(s) => s,
        None => if b > 0 {
            i64::MAX
        } else {
            i64::MIN
        },
    }
}

/// Moves the point `p` by `(dx, dy, dz)`.
pub fn translate(p: [i64; 3], dx: i64, dy: i64, dz: i64) -> (moved: [i64; 3])
    ensures
        moved == translated(p, dx, dy, dz),
{
    [saturating_sum(p[0], dx), saturating_sum(p[1], dy), saturating_sum(p[2], dz)]
}

} // verus!
