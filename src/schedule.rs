//! When the next post is allowed.
use vstd::prelude::*;

verus! {

/// Seconds to wait before the first cycle, given the last post's time and the
/// current time (both in seconds since the epoch): the remainder of the
/// cooldown `last + interval`, or nothing once it has passed.
pub open spec fn spec_wait(last_post: int, now: int, interval: int) -> int {
    if now - last_post < interval {
        last_post + interval - now
    } else {
        0
    }
}

/// The last post's time: that of the newest post, or, with no post at all,
/// one interval before now.
pub open spec fn spec_last_post(newest: Option<i64>, now: int, interval: int) -> int {
    match newest {
        Some(t) => t as int,
        None => now - interval,
    }
}

/// Seconds to wait before the first cycle.
pub fn cooldown_secs(last_post: i64, now: i64, interval: i64) -> (r: u128)
    ensures
        r == spec_wait(last_post as int, now as int, interval as int),
{
    let elapsed: i128 = now as i128 - last_post as i128;
    if elapsed < interval as i128 {
        (interval as i128 - elapsed) as u128
    } else {
        0
    }
}

/// The last post's time, from the newest post's time if there is one.
pub fn last_post_secs(newest: Option<i64>, now: i64, interval: i64) -> (r: i64)
    requires
        now - interval >= i64::MIN,
        now - interval <= i64::MAX,
    ensures
        r == spec_last_post(newest, now as int, interval as int),
{
    match newest {
        Some(t) => t,
        None => now - interval,
    }
}

/// Relies on chrono::Utc::now and DateTime::timestamp: the current time in
/// whole seconds since the epoch. Nothing is known of its value.
#[verifier::external_body]
fn current_secs() -> (r: i64) {
    chrono::Utc::now().timestamp()
}

/// Reads the clock and returns it with the wait before the first cycle,
/// given the newest post's time if there is one.
pub fn wait_before_first_cycle(newest: Option<i64>, interval: i64) -> (r: (i64, u128))
    ensures
        r.1 == spec_wait(spec_last_post(newest, r.0 as int, interval as int), r.0 as int, interval as int),
{
    let now = current_secs();
    match newest {
        Some(t) => (now, cooldown_secs(t, now, interval)),
        None => {
            proof {
                lemma_empty_timeline_no_wait(now as int, interval as int);
            }
            (now, 0)
        },
    }
}

/// Before the first cycle the scheduler waits exactly what is left of the
/// cooldown, `last + interval - now`, when less than one interval has passed
/// since the last post, and does not wait at all otherwise.
pub proof fn lemma_cooldown_exact(last_post: int, now: int, interval: int)
    ensures
        now - last_post < interval ==> spec_wait(last_post, now, interval) == last_post + interval - now
            && spec_wait(last_post, now, interval) > 0,
        now - last_post >= interval ==> spec_wait(last_post, now, interval) == 0,
{
}

/// With an empty timeline the last post counts as one interval before now, so
/// the first cycle starts without waiting.
pub proof fn lemma_empty_timeline_no_wait(now: int, interval: int)
    ensures
        spec_last_post(None, now, interval) == now - interval,
        spec_wait(spec_last_post(None, now, interval), now, interval) == 0,
{
}

} // verus!
