use vstd::prelude::*;

pub mod config;
pub mod listener;
pub mod message;
pub mod transcript;
pub mod ui;

verus! {

/// Integer division that rounds toward zero, as Rust's `/` does.
pub open spec fn div_toward_zero(a: int, d: int) -> int
    recommends
        d > 0,
{
    if a >= 0 {
        a / d
    } else {
        -((-a) / d)
    }
}

/// Scales `distance` by `percentage` percent, rounding toward zero.
pub fn percentage_to_value(distance: i32, percentage: i32) -> (r: i32)
    requires
        i32::MIN <= distance * percentage <= i32::MAX,
    ensures
        r as int == div_toward_zero(distance * percentage, 100),
{
    (distance * percentage) / 100
}

} // verus!
