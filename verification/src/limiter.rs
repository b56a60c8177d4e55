//! Admission control over a trailing window of sixty seconds.
//!
//! Time is a count of milliseconds on a monotonic clock. The chat limiter
//! keeps, per client, the times of the sends it admitted; the completion
//! limiter keeps, per user, a counter and the start of its window.

use vstd::prelude::*;
use std::collections::VecDeque;

verus! {

/// Length of the window in milliseconds.
pub const WINDOW_MS: u64 = 60_000;

/// Length of the window in seconds.
pub const WINDOW_SECS: u64 = 60;

/// Milliseconds from `then` to `now`, zero if `then` is the later one.
pub open spec fn elapsed(now: u64, then: u64) -> nat {
    if now >= then {
        (now - then) as nat
    } else {
        0
    }
}

/// Whether a send made at `stamp` has left the window by `now`.
pub open spec fn expired(stamp: u64, now: u64) -> bool {
    elapsed(now, stamp) > WINDOW_MS
}

/// What eviction at `now` leaves of the queue `q`: `q` without its leading
/// expired entries.
pub open spec fn retained(q: Seq<u64>, now: u64) -> Seq<u64>
    decreases q.len(),
{
    if q.len() > 0 && expired(q[0], now) {
        retained(q.drop_first(), now)
    } else {
        q
    }
}

/// The hint given with a rejection: the whole seconds of the window that
/// the oldest retained send has not yet used, and at least one.
pub open spec fn wait_seconds(oldest: u64, now: u64) -> u64 {
    let used = elapsed(now, oldest) / 1000;
    if used >= WINDOW_SECS - 1 {
        1
    } else {
        (WINDOW_SECS - used) as u64
    }
}

/// The hint given with a rejection where the window holds the sends
/// `kept`: the wait for the oldest of them, or the whole window where it
/// holds none, which happens only under a limit of zero.
pub open spec fn wait_for(kept: Seq<u64>, now: u64) -> u64 {
    if kept.len() > 0 {
        wait_seconds(kept[0], now)
    } else {
        WINDOW_SECS
    }
}

/// Whether a send at `now` is admitted under `limit` per window, given the
/// queue `q` of earlier admitted sends: fewer than `limit` of them are
/// left in the window.
pub open spec fn admits(q: Seq<u64>, limit: u32, now: u64) -> bool {
    retained(q, now).len() < limit
}

/// The answer to a send at `now`: admission, or the seconds to wait.
pub open spec fn verdict(q: Seq<u64>, limit: u32, now: u64) -> Result<(), u64> {
    if admits(q, limit, now) {
        Ok(())
    } else {
        Err(wait_for(retained(q, now), now))
    }
}

/// The queue after a send at `now` was judged: expired entries are gone,
/// and an admitted send is recorded at the back.
pub open spec fn after_check(q: Seq<u64>, limit: u32, now: u64) -> Seq<u64> {
    let kept = retained(q, now);
    if admits(q, limit, now) {
        kept.push(now)
    } else {
        kept
    }
}

/// Eviction keeps a suffix of the queue whose first entry, if there is one,
/// has not expired; everything before that suffix has.
pub proof fn lemma_retained(q: Seq<u64>, now: u64)
    ensures
        retained(q, now).len() <= q.len(),
        retained(q, now) == q.skip(q.len() - retained(q, now).len()),
        retained(q, now).len() > 0 ==> !expired(retained(q, now)[0], now),
        forall|i: int| 0 <= i < q.len() - retained(q, now).len() ==> expired(#[trigger] q[i], now),
    decreases q.len(),
{
    if q.len() > 0 && expired(q[0], now) {
        let rest = q.drop_first();
        lemma_retained(rest, now);
        let kept = retained(q, now);
        assert(kept == retained(rest, now));
        assert(kept =~= q.skip(q.len() - kept.len()));
        assert forall|i: int| 0 <= i < q.len() - kept.len() implies expired(#[trigger] q[i], now) by {
            if i > 0 {
                assert(q[i] == rest[i - 1]);
            }
        }
    } else {
        assert(q =~= q.skip(0));
    }
}

/// A rejection always asks for a wait of one to sixty seconds.
pub proof fn lemma_wait_bounds(oldest: u64, now: u64)
    ensures
        1 <= wait_seconds(oldest, now) <= WINDOW_SECS,
{
}

fn millis_between(now: u64, then: u64) -> (r: u64)
    ensures
        r == elapsed(now, then),
{
    if now >= then {
        now - then
    } else {
        0
    }
}

/// Judges a send at `now` against the queue of a client: evicts what has
/// expired, then admits and records the send, or rejects it with the
/// seconds to wait.
pub fn judge(stamps: &mut VecDeque<u64>, limit: u32, now: u64) -> (r: Result<(), u64>)
    ensures
        r == verdict(old(stamps)@, limit, now),
        final(stamps)@ == after_check(old(stamps)@, limit, now),
        r is Err ==> 1 <= r->Err_0 <= WINDOW_SECS,
{
    while stamps.len() > 0 && millis_between(now, stamps[0]) > WINDOW_MS
        invariant
            retained(stamps@, now) == retained(old(stamps)@, now),
        decreases stamps@.len(),
    {
        proof {
            assert(stamps@.subrange(1, stamps@.len() as int) =~= stamps@.drop_first());
        }
        stamps.pop_front();
    }
    assert(stamps@ == retained(old(stamps)@, now));
    if stamps.len() >= limit as usize {
        if stamps.len() == 0 {
            return Err(WINDOW_SECS);
        }
        let oldest = stamps[0];
        let used = millis_between(now, oldest) / 1000;
        let wait = if used >= WINDOW_SECS - 1 {
            1
        } else {
            WINDOW_SECS - used
        };
        return Err(wait);
    }
    stamps.push_back(now);
    Ok(())
}

/// The completion limiter's record for one user: the requests counted in
/// the current window, and the time at which that window began.
#[derive(Debug, Clone, Copy, PartialEq, Eq)]
pub struct RateLimitEntry {
    pub count: u32,
    pub window_start: u64,
}

/// The window that a request at `now` falls into: a fresh one if the user
/// has no record or the recorded window is sixty seconds old, else the
/// recorded one.
pub open spec fn current_window(entry: Option<RateLimitEntry>, now: u64) -> RateLimitEntry {
    match entry {
        Some(e) => if elapsed(now, e.window_start) >= WINDOW_MS {
            RateLimitEntry { count: 0, window_start: now }
        } else {
            e
        },
        None => RateLimitEntry { count: 0, window_start: now },
    }
}

/// The whole seconds that remain of a window that began at `window_start`.
pub open spec fn retry_seconds(window_start: u64, now: u64) -> u64 {
    if elapsed(now, window_start) >= WINDOW_MS {
        0
    } else {
        ((WINDOW_MS - elapsed(now, window_start)) / 1000) as u64
    }
}

/// The answer to a request at `now` under `limit` per window: it counts,
/// or the user is told how many seconds remain of the window.
pub open spec fn request_verdict(entry: Option<RateLimitEntry>, limit: u32, now: u64) -> Result<
    (),
    u64,
> {
    let window = current_window(entry, now);
    if window.count >= limit {
        Err(retry_seconds(window.window_start, now))
    } else {
        Ok(())
    }
}

/// The user's record after a request at `now` was judged.
pub open spec fn after_request(entry: Option<RateLimitEntry>, limit: u32, now: u64) -> RateLimitEntry {
    let window = current_window(entry, now);
    if window.count >= limit {
        window
    } else {
        RateLimitEntry { count: (window.count + 1) as u32, window_start: window.window_start }
    }
}

/// Judges a request at `now` against a user's record, and gives the record
/// to keep.
pub fn count_request(entry: Option<RateLimitEntry>, limit: u32, now: u64) -> (r: (
    RateLimitEntry,
    Result<(), u64>,
))
    ensures
        r.0 == after_request(entry, limit, now),
        r.1 == request_verdict(entry, limit, now),
        r.1 is Err ==> r.1->Err_0 <= WINDOW_SECS,
{
    let fresh = RateLimitEntry { count: 0, window_start: now };
    let window = match entry {
        Some(e) => if millis_between(now, e.window_start) >= WINDOW_MS {
            fresh
        } else {
            e
        },
        None => fresh,
    };
    if window.count >= limit {
        let gone = millis_between(now, window.window_start);
        let left = if gone >= WINDOW_MS {
            0
        } else {
            (WINDOW_MS - gone) / 1000
        };
        (window, Err(left))
    } else {
        (RateLimitEntry { count: window.count + 1, window_start: window.window_start }, Ok(()))
    }
}

} // verus!
