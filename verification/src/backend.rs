//! Durations as a backend reports them across the boundary.

use vstd::prelude::*;

verus! {

/// The number, where 32 bits can hold it; else the largest number they can
/// hold.
pub open spec fn saturated(num: int) -> int {
    if num > u32::MAX {
        u32::MAX as int
    } else {
        num
    }
}

/// A count of milliseconds, held to what 32 bits can say: a duration too
/// long for them reads as the longest they can express.
pub fn ensure_u32(num: u128) -> (n: u32)
    ensures
        n == saturated(num as int),
{
    if num > u32::MAX as u128 {
        u32::MAX
    } else {
        num as u32
    }
}

/// Writes an optional count of milliseconds to `out`, saturated, when
/// there is one, and leaves `out` as it was when there is none. Returns
/// whether there was one.
pub fn put_millis(out: &mut u32, millis: Option<u128>) -> (present: bool)
    ensures
        present == (millis is Some),
        millis is None ==> *final(out) == *old(out),
        millis matches Some(ms) ==> *final(out) == saturated(ms as int),
{
    match millis {
        Some(ms) => {
            *out = ensure_u32(ms);
            true
        },
        None => false,
    }
}

} // verus!
