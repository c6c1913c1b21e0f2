use vstd::prelude::*;

verus! {

/// How long, in seconds, a transaction can still be undone.
pub const GRACE_PERIOD_SECONDS: i64 = 120;

/// Whether an entry written at `timestamp` is still eligible for undo at `now`.
pub open spec fn in_grace(timestamp: int, now: int) -> bool {
    now - timestamp <= GRACE_PERIOD_SECONDS
}

/// Evaluated at the time of the request, on the server's own clock.
pub fn within_grace_period(timestamp: i64, now: i64) -> (r: bool)
    ensures
        r == in_grace(timestamp as int, now as int),
{
    (now as i128) - (timestamp as i128) <= GRACE_PERIOD_SECONDS as i128
}

} // verus!
