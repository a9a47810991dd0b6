//! Shares of a length, in whole pixels.

use vstd::prelude::*;

verus! {

/// `percent` hundredths of `number`, rounded to the nearest integer, a half
/// upwards, and never more than `u32::MAX`.
pub open spec fn rounded_percent(number: int, percent: int) -> int {
    let share = (number * percent + 50) / 100;
    if share > u32::MAX {
        u32::MAX as int
    } else {
        share
    }
}

/// `percent` hundredths of `number` as an odd number: the integer part where
/// it is odd, 1 where it is 0, the odd number below an even share that is
/// exact, and the odd number above one that is not. Never more than
/// `u32::MAX`.
pub open spec fn nearest_odd_percent(number: int, percent: int) -> int {
    let whole = (number * percent) / 100;
    let exact = (number * percent) % 100 == 0;
    if whole > u32::MAX {
        u32::MAX as int
    } else if whole % 2 == 1 {
        whole
    } else if whole == 0 {
        1
    } else if exact {
        whole - 1
    } else {
        whole + 1
    }
}

/// The product of two 32-bit numbers fits in 64 bits, with room to round.
proof fn lemma_product_fits(number: u32, percent: u32)
    ensures
        0 <= number * percent <= 0xffff_fffe_0000_0001,
{
    assert(0 <= number * percent <= 0xffff_ffff * 0xffff_ffff) by (nonlinear_arith)
        requires
            0 <= number <= 0xffff_ffff,
            0 <= percent <= 0xffff_ffff,
    ;
}

/// `percent` hundredths of `number`, rounded to the nearest integer.
pub fn percent_of(number: u32, percent: u32) -> (share: u32)
    ensures
        share == rounded_percent(number as int, percent as int),
{
    proof {
        lemma_product_fits(number, percent);
    }
    let product: u64 = (number as u64) * (percent as u64);
    let share: u64 = (product + 50) / 100;
    if share > (u32::MAX as u64) {
        u32::MAX
    } else {
        share as u32
    }
}

/// `percent` hundredths of `number`, as the nearest odd number.
pub fn percent_of_to_nearest_odd(number: u32, percent: u32) -> (share: u32)
    ensures
        share == nearest_odd_percent(number as int, percent as int),
        share % 2 == 1,
{
    proof {
        lemma_product_fits(number, percent);
    }
    let product: u64 = (number as u64) * (percent as u64);
    let whole: u64 = product / 100;
    if whole > (u32::MAX as u64) {
        return u32::MAX;
    }
    let rounded: u32 = whole as u32;
    if rounded % 2 == 1 {
        rounded
    } else if rounded == 0 {
        1
    } else if product % 100 == 0 {
        rounded - 1
    } else {
        rounded + 1
    }
}

} // verus!
