use vstd::prelude::*;

verus! {

/// A pass is active at `now` when it was issued and expires strictly after
/// `now`. A pass that expires at the very instant `now` has lapsed.
pub open spec fn is_active(expiry_ts: u64, now: u64) -> bool {
    expiry_ts != 0 && expiry_ts > now
}

/// The expiry after one more period of `duration` bought or granted at `now`:
/// a new pass runs from `now`; an active pass is extended from its current
/// expiry; a lapsed pass starts again from `now`, with no credit for the time
/// that passed.
pub open spec fn extended_expiry(expiry_ts: u64, now: u64, duration: u64) -> int {
    if expiry_ts == 0 {
        now + duration
    } else if expiry_ts > now {
        expiry_ts + duration
    } else {
        now + duration
    }
}

/// The expiry after one more period, or `None` when it does not fit in a `u64`.
pub fn extend_expiry(expiry_ts: u64, now: u64, duration: u64) -> (r: Option<u64>)
    ensures
        r == (if extended_expiry(expiry_ts, now, duration) <= u64::MAX {
            Some(extended_expiry(expiry_ts, now, duration) as u64)
        } else {
            None::<u64>
        }),
{
    if expiry_ts == 0 {
        now.checked_add(duration)
    } else if expiry_ts > now {
        expiry_ts.checked_add(duration)
    } else {
        now.checked_add(duration)
    }
}

/// Renewing an active pass stacks the new period on the remaining time.
pub proof fn lemma_active_stacks(expiry_ts: u64, now: u64, duration: u64)
    requires
        now < expiry_ts,
    ensures
        is_active(expiry_ts, now),
        extended_expiry(expiry_ts, now, duration) == expiry_ts + duration,
{
}

/// Renewing a pass that was never issued or has lapsed, the expiry at the
/// renewal instant included, starts a fresh period at `now`.
pub proof fn lemma_inactive_restarts(expiry_ts: u64, now: u64, duration: u64)
    requires
        expiry_ts <= now,
    ensures
        !is_active(expiry_ts, now),
        extended_expiry(expiry_ts, now, duration) == now + duration,
{
}

/// The new expiry is never earlier than `now + duration`: a renewal never
/// shortens access.
pub proof fn lemma_extension_covers_period(expiry_ts: u64, now: u64, duration: u64)
    ensures
        extended_expiry(expiry_ts, now, duration) >= now + duration,
        extended_expiry(expiry_ts, now, duration) >= expiry_ts,
{
}

} // verus!
