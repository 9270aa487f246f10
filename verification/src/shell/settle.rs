//! Overviews that settle open or closed.

use vstd::prelude::*;

use crate::time::Duration;

verus! {

/// What an overview settles into.
#[derive(Clone, Copy, Debug, PartialEq, Eq, Structural)]
pub enum Endpoint {
    Closed,
    Open,
}

/// A settling: from a progress, as the bits of a number between zero and one, to an
/// endpoint.
#[derive(Clone, Copy, Debug, PartialEq, Eq, Structural)]
pub struct Settle {
    pub from_bits: u32,
    pub to: Endpoint,
    pub started_at: Duration,
    pub duration: Duration,
}

/// The settling has not come to its end.
pub open spec fn settles(started_at: Duration, duration: Duration, now: Duration) -> bool {
    if now.nanos >= started_at.nanos {
        now.nanos - started_at.nanos < duration.nanos
    } else {
        0 < duration.nanos
    }
}

/// Whether something that takes `duration` is still under way.
pub fn is_settling(started_at: Duration, duration: Duration, now: Duration) -> (r: bool)
    ensures
        r == settles(started_at, duration, now),
{
    now.saturating_sub(started_at).nanos < duration.nanos
}

/// The bits of one.
pub const ONE_BITS: u32 = 0x3f80_0000;

/// The bits of the difference between one and the next number.
pub const EPSILON_BITS: u32 = 0x3400_0000;

/// The bits of a number that is held between zero and one. What is no number stays so.
pub open spec fn unit_bits(bits: u32) -> u32 {
    if 0x8000_0001 <= bits <= 0xff80_0000 {
        0
    } else if ONE_BITS < bits <= 0x7f80_0000 {
        ONE_BITS
    } else {
        bits
    }
}

pub fn hold_in_unit(bits: u32) -> (r: u32)
    ensures
        r == unit_bits(bits),
{
    if 0x8000_0001 <= bits && bits <= 0xff80_0000 {
        0
    } else if ONE_BITS < bits && bits <= 0x7f80_0000 {
        ONE_BITS
    } else {
        bits
    }
}

/// The bits are of no number.
pub open spec fn is_nan_bits(bits: u32) -> bool {
    (0x7f80_0000 < bits && bits < 0x8000_0000) || 0xff80_0000 < bits
}

/// The bits are of equal numbers. Zero has two forms, and what is no number equals
/// nothing.
pub open spec fn equal_numbers(a: u32, b: u32) -> bool {
    !is_nan_bits(a) && !is_nan_bits(b) && (a == b || ((a == 0 || a == 0x8000_0000) && (b == 0 || b
        == 0x8000_0000)))
}

pub fn same_number(a: u32, b: u32) -> (r: bool)
    ensures
        r == equal_numbers(a, b),
{
    let nan_a = (0x7f80_0000 < a && a < 0x8000_0000) || 0xff80_0000 < a;
    let nan_b = (0x7f80_0000 < b && b < 0x8000_0000) || 0xff80_0000 < b;
    !nan_a && !nan_b && (a == b || ((a == 0 || a == 0x8000_0000) && (b == 0 || b == 0x8000_0000)))
}

/// The bits of a number that is as good as zero, or below it.
pub open spec fn is_at_rest(bits: u32) -> bool {
    bits <= EPSILON_BITS || 0x8000_0000 <= bits <= 0xff80_0000
}

pub fn at_rest(bits: u32) -> (r: bool)
    ensures
        r == is_at_rest(bits),
{
    bits <= EPSILON_BITS || (0x8000_0000 <= bits && bits <= 0xff80_0000)
}

/// What takes time is under way until its time is up, also where the clock is behind its
/// start; what takes none never is. Once it has come to its end it has for good.
pub proof fn settling_takes_its_time(
    started_at: Duration,
    duration: Duration,
    now: Duration,
    later: Duration,
)
    requires
        now.nanos <= later.nanos,
    ensures
        settles(started_at, duration, now) <==> duration.nanos > 0 && now.nanos < started_at.nanos
            + duration.nanos,
        settles(started_at, duration, later) ==> settles(started_at, duration, now),
{
}

/// What is held between zero and one is never more than one or less than zero, stays where it
/// was inside, and is at the bound that it was past. What is no number stays none.
pub proof fn shares_are_held_in_the_unit(bits: u32)
    ensures
        unit_bits(unit_bits(bits)) == unit_bits(bits),
        bits <= 0x3f80_0000 ==> unit_bits(bits) == bits,
        0x3f80_0000 <= bits <= 0x7f80_0000 ==> unit_bits(bits) == 0x3f80_0000,
        0x8000_0000 < bits <= 0xff80_0000 ==> unit_bits(bits) == 0,
        is_nan_bits(bits) <==> (0x7f80_0000 < bits < 0x8000_0000 || 0xff80_0000 < bits),
        is_nan_bits(bits) ==> is_nan_bits(unit_bits(bits)),
        !is_nan_bits(bits) ==> unit_bits(bits) <= 0x3f80_0000 || unit_bits(bits) == 0x8000_0000,
{
}

/// Numbers are equal to themselves, and the two zeros to each other; nothing else is, and what
/// is no number equals nothing.
pub proof fn equal_numbers_are_the_same(a: u32, b: u32)
    ensures
        equal_numbers(a, b) <==> equal_numbers(b, a),
        is_nan_bits(a) ==> !equal_numbers(a, b),
        !is_nan_bits(a) ==> equal_numbers(a, a),
        equal_numbers(0, 0x8000_0000),
        equal_numbers(a, b) && a != b ==> (a == 0 && b == 0x8000_0000) || (a == 0x8000_0000 && b
            == 0),
{
}

/// What is at most the least step above one is at rest, and so is all below zero; nothing
/// larger is, and nothing that is no number.
pub proof fn only_what_is_next_to_nothing_rests(bits: u32)
    ensures
        bits <= 0x3400_0000 ==> is_at_rest(bits),
        0x3400_0000 < bits < 0x8000_0000 ==> !is_at_rest(bits),
        0x8000_0000 <= bits <= 0xff80_0000 ==> is_at_rest(bits),
        0xff80_0000 < bits ==> !is_at_rest(bits),
{
}

} // verus!
