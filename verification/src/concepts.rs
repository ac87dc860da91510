//! Core language behaviours: saturating arithmetic, a labeled nested
//! loop, and a loop that yields a result value.

use vstd::prelude::*;

verus! {

/// The sum of two 8-bit values, clamped to the type's maximum instead
/// of wrapping.
pub open spec fn sat_add8(x: u8, y: u8) -> u8 {
    if x + y > u8::MAX {
        u8::MAX
    } else {
        (x + y) as u8
    }
}

/// Saturating addition on 8-bit values: clamps at the maximum, never
/// wraps and never overflows.
pub fn saturating_add_u8(x: u8, y: u8) -> (r: u8)
    ensures
        r == sat_add8(x, y),
{
    x.saturating_add(y)
}

/// A value already at the 8-bit maximum stays at the maximum when any
/// positive amount is added: the sum saturates, it does not wrap.
pub proof fn lemma_saturate_at_max(a: u8)
    requires
        a > 0,
    ensures
        sat_add8(u8::MAX, a) == u8::MAX,
{
}

/// The labeled nested loop: the outer counter climbs while the inner
/// loop counts `remaining` down from 10 and breaks at 9; once the
/// outer counter reaches 2, the inner loop breaks out of the outer
/// loop by its label. The outer counter's final value is exactly 2.
pub fn labeled_loop_count() -> (count: u32)
    ensures
        count == 2,
{
    let mut count: u32 = 0;
    'counting: loop
        invariant
            count <= 2,
        ensures
            count == 2,
        decreases 2 - count,
    {
        let mut remaining: u32 = 10;
        loop
            invariant
                9 <= remaining <= 10,
                count <= 2,
                remaining == 9 ==> count < 2,
            ensures
                count < 2,
            decreases remaining,
        {
            if remaining == 9 {
                break ;
            }
            if count == 2 {
                break 'counting;
            }
            remaining = remaining - 1;
        }
        count = count + 1;
    }
    count
}

/// A loop that yields a value: the counter climbs by one each pass
/// and, on reaching 10, the loop exits handing out twice the counter,
/// so the result is exactly 20.
pub fn loop_with_result() -> (r: u32)
    ensures
        r == 20,
{
    let mut counter: u32 = 0;
    loop
        invariant_except_break
            counter <= 9,
        ensures
            counter == 10,
        decreases 10 - counter,
    {
        counter = counter + 1;
        if counter == 10 {
            break ;
        }
    }
    counter * 2
}

/// Adds 5 to its argument.
pub fn function_with_params(x: i32) -> (r: i32)
    requires
        x + 5 <= i32::MAX,
    ensures
        r == x + 5,
{
    x + 5
}

} // verus!
