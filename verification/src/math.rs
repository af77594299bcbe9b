//! Sample guest exports: fixed-width additions, one for each integer width and signedness.
//!
//! A sum that does not fit its width is no input of these functions.

use vstd::prelude::*;

verus! {

/// Adds two signed 32-bit integers.
pub fn add_i32(a: i32, b: i32) -> (sum: i32)
    requires
        i32::MIN <= a + b <= i32::MAX,
    ensures
        sum == a + b,
{
    a + b
}

/// Adds two unsigned 32-bit integers.
pub fn add_u32(a: u32, b: u32) -> (sum: u32)
    requires
        a + b <= u32::MAX,
    ensures
        sum == a + b,
{
    a + b
}

/// Adds two signed 64-bit integers.
pub fn add_i64(a: i64, b: i64) -> (sum: i64)
    requires
        i64::MIN <= a + b <= i64::MAX,
    ensures
        sum == a + b,
{
    a + b
}

/// Adds two unsigned 64-bit integers.
pub fn add_u64(a: u64, b: u64) -> (sum: u64)
    requires
        a + b <= u64::MAX,
    ensures
        sum == a + b,
{
    a + b
}

} // verus!
