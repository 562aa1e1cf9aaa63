use vstd::prelude::*;

verus! {

/// Length of a day in seconds, whatever the calendar.
pub const SECONDS_PER_DAY: u128 = 86400;

/// Whole days by which `actual` lies after `expected`; zero when not late.
pub open spec fn days_late(actual: int, expected: int) -> int {
    if actual <= expected {
        0
    } else {
        (actual - expected) / 86400
    }
}

/// Whole days of delay, truncated toward zero, with 86400-second days.
pub fn days_delayed(actual: u128, expected: u128) -> (r: u128)
    ensures
        r == days_late(actual as int, expected as int),
{
    if actual <= expected {
        return 0;
    }
    (actual - expected) / SECONDS_PER_DAY
}

/// An arrival at or before the expected time owes no day; one that is `k`
/// whole days and `r` seconds late, with `r` under a day, owes exactly `k`.
pub proof fn lemma_days_late(actual: int, expected: int, k: int, r: int)
    requires
        k >= 0,
        0 <= r < 86400,
    ensures
        actual <= expected ==> days_late(actual, expected) == 0,
        actual == expected + 86400 * k + r ==> days_late(actual, expected) == k,
{
    if actual == expected + 86400 * k + r && actual > expected {
        assert((86400 * k + r) / 86400 == k) by (nonlinear_arith)
            requires
                k >= 0,
                0 <= r < 86400,
        ;
    }
}

} // verus!
