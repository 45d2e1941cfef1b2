use vstd::prelude::*;

use crate::command::ClockTimes;

verus! {

/// The side to move.
#[derive(Clone, Copy, Debug, PartialEq, Eq, Structural)]
pub enum Side {
    White,
    Black,
}

/// The time allotted to one move on a clock: a fifth of the mover's remaining
/// time and half of its increment.
pub open spec fn move_budget(time: u64, inc: u64) -> int {
    time as int / 5 + inc as int / 2
}

/// The milliseconds that the side to move may spend on this move.
pub fn clock_budget_ms(clock: &ClockTimes, side: Side) -> (r: u64)
    ensures
        r == match side {
            Side::White => move_budget(clock.white_time, clock.white_inc),
            Side::Black => move_budget(clock.black_time, clock.black_inc),
        },
{
    match side {
        Side::White => clock.white_time / 5 + clock.white_inc / 2,
        Side::Black => clock.black_time / 5 + clock.black_inc / 2,
    }
}

/// floor(log2(visits / 100)) for at least 200 visits, else 0: the depth that a
/// search of `visits` visits reports.
pub open spec fn depth_of(visits: nat) -> nat
    decreases visits,
{
    if visits < 200 {
        0
    } else {
        1 + depth_of(visits / 2)
    }
}

/// The depth that a search of `visits` visits reports.
pub fn depth_estimate(visits: u64) -> (r: u64)
    ensures
        r == depth_of(visits as nat),
{
    let mut v: u64 = visits;
    let mut d: u64 = 0;
    while v >= 200
        invariant
            d + depth_of(v as nat) == depth_of(visits as nat),
            v <= visits,
            d * 100 <= visits - v,
        decreases v,
    {
        v = v / 2;
        d = d + 1;
    }
    d
}

/// Visits per second, where time has passed.
pub open spec fn rate_of(visits: nat, elapsed_ms: nat) -> Option<nat> {
    if elapsed_ms == 0 {
        None
    } else {
        Some(visits * 1000 / elapsed_ms)
    }
}

/// The search's speed in visits per second; `None` where no time has passed.
pub fn nodes_per_second(visits: u64, elapsed_ms: u64) -> (r: Option<u128>)
    ensures
        match rate_of(visits as nat, elapsed_ms as nat) {
            Some(n) => r == Some(n as u128),
            None => r is None,
        },
{
    if elapsed_ms == 0 {
        None
    } else {
        let n = (visits as u128) * 1000;
        Some(n / (elapsed_ms as u128))
    }
}

} // verus!
