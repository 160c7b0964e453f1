//! Saturating counter arithmetic for player resources.

use vstd::prelude::*;

verus! {

/// The sum, stopping at the type's limits.
pub open spec fn spec_sat_add_i64(a: i64, b: i64) -> i64 {
    if a + b > i64::MAX {
        i64::MAX
    } else if a + b < i64::MIN {
        i64::MIN
    } else {
        (a + b) as i64
    }
}

/// The difference, stopping at the type's limits.
pub open spec fn spec_sat_sub_i64(a: i64, b: i64) -> i64 {
    if a - b > i64::MAX {
        i64::MAX
    } else if a - b < i64::MIN {
        i64::MIN
    } else {
        (a - b) as i64
    }
}

/// Adds, stopping at the type's limits.
pub fn sat_add_i64(a: i64, b: i64) -> (r: i64)
    ensures
        r == spec_sat_add_i64(a, b),
{
    match a.checked_add(b) {
        Some(x) => x,
        None => if b >= 0 {
            i64::MAX
        } else {
            i64::MIN
        },
    }
}

/// Subtracts, stopping at the type's limits.
pub fn sat_sub_i64(a: i64, b: i64) -> (r: i64)
    ensures
        r == spec_sat_sub_i64(a, b),
{
    match a.checked_sub(b) {
        Some(x) => x,
        None => if b >= 0 {
            i64::MIN
        } else {
            i64::MAX
        },
    }
}

} // verus!
