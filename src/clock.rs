//! Time as whole seconds since the Unix epoch, in UTC, and calendar days.
use vstd::prelude::*;

verus! {

pub const SECONDS_PER_DAY: i64 = 86400;

/// Length of the trailing window of the weekly series.
pub const SECONDS_PER_WEEK: i64 = 604800;

/// The UTC calendar day (days since the epoch) holding the instant `t`.
pub open spec fn day_of(t: i64) -> int {
    t as int / 86400
}

/// The UTC calendar day of an instant, as `day_of` states it.
pub fn day_number(t: i64) -> (r: i64)
    ensures
        r == day_of(t),
{
    if t >= 0 {
        t / SECONDS_PER_DAY
    } else {
        let u: i64 = -(t + 1);
        let d: i64 = u / SECONDS_PER_DAY;
        assert(t as int / 86400 == -d - 1) by (nonlinear_arith)
            requires
                u == -(t + 1),
                d == u / 86400,
                u >= 0,
        ;
        -d - 1
    }
}

/// Relies on chrono's `Utc::now` and `DateTime::timestamp`: the current
/// instant in whole seconds. Nothing is known of the value.
#[verifier::external_body]
pub(crate) fn current_timestamp() -> (r: i64) {
    chrono::Utc::now().timestamp()
}

} // verus!
