//! Countdown timers over any wrapping millisecond clock.

use vstd::prelude::*;

use crate::clock::CountsMillis;
use crate::hal::would_block;
use void::Void;

verus! {

/// Rollover-safe "deadline reached" test: true when `now` has advanced past
/// `target` by at least one and fewer than 2^31 wrapped milliseconds.
///
/// This is the signed-difference trick: it stays correct for any armed
/// duration under 2^31 ms, even when the target wraps across 2^32.
pub open spec fn has_elapsed(now: u32, target: u32) -> bool {
    0 < now.wrapping_sub(target) < 0x8000_0000
}

/// The state any countdown is in immediately after `start_at(now, ms)`:
/// armed with the fresh target, whatever state `t` it was in before.
pub open spec fn start_transition(t: MillisCountDown, now: u32, ms: u32) -> MillisCountDown {
    MillisCountDown { target_millis: Some(now.wrapping_add(ms)) }
}

/// The state an Armed countdown is in immediately after `wait_at(now)`:
/// Idle once the deadline has passed, untouched before that.
pub open spec fn wait_transition(t: MillisCountDown, now: u32) -> MillisCountDown {
    if has_elapsed(now, t.target_millis->Some_0) {
        MillisCountDown { target_millis: None }
    } else {
        t
    }
}

/// Countdown over an underlying [`CountsMillis`] (probably
/// [`PollingSysTick`](crate::PollingSysTick)).
///
/// The countdown is Armed while `target_millis` holds the wrapping
/// millisecond reading at which it elapses, and Idle otherwise.
pub struct MillisCountDown {
    /// The wrapping millisecond reading at which the countdown elapses;
    /// `None` while Idle.
    pub target_millis: Option<u32>,
}

impl MillisCountDown {
    /// Creates an Idle countdown.
    pub fn new() -> (r: Self)
        ensures
            r.target_millis is None,
    {
        MillisCountDown { target_millis: None }
    }

    /// Arms the countdown to elapse `ms` milliseconds after the clock
    /// reading `now`. The prior state does not matter: an Armed countdown
    /// is simply re-armed with the fresh target.
    pub fn start_at(&mut self, now: u32, ms: u32)
        ensures
            *final(self) == start_transition(*old(self), now, ms),
    {
        self.target_millis = Some(now.wrapping_add(ms));
    }

    /// Polls the clock and arms the countdown for `ms` milliseconds from
    /// that reading.
    ///
    /// The clock reading is the source's to decide, so all that is promised
    /// is that the countdown ends up Armed; [`start_at`](Self::start_at)
    /// carries the exact contract for any given reading.
    pub fn start_ms<CM: CountsMillis>(&mut self, counter: &mut CM, ms: u32)
        ensures
            final(self).target_millis is Some,
    {
        let now = counter.count();
        self.start_at(now, ms);
    }

    /// Decides against the clock reading `now` whether the armed deadline
    /// has passed: `Ok` (going Idle) exactly when it has, `WouldBlock`
    /// (unchanged) otherwise.
    ///
    /// A countdown armed with `ms = 0` would block at the unchanged reading
    /// and elapse one millisecond later: the deadline test is strict.
    pub fn wait_at(&mut self, now: u32) -> (r: Result<(), nb::Error<Void>>)
        requires
            old(self).target_millis is Some,
        ensures
            r is Ok <==> has_elapsed(now, old(self).target_millis->Some_0),
            *final(self) == wait_transition(*old(self), now),
    {
        let target = self.target_millis.unwrap();
        let delta = now.wrapping_sub(target);
        if 0 < delta && delta < 0x8000_0000 {
            self.target_millis = None;
            Ok(())
        } else {
            would_block()
        }
    }

    /// Polls the clock and tests the armed deadline: `WouldBlock` until the
    /// deadline has passed, then `Ok` exactly once, going Idle.
    ///
    /// Calling this on an Idle countdown is a contract violation, excluded
    /// here; unverified callers that do so hit the `unwrap` in
    /// [`wait_at`](Self::wait_at) and panic, as a programming error should.
    pub fn wait_ms<CM: CountsMillis>(&mut self, counter: &mut CM) -> (r: Result<(), nb::Error<Void>>)
        requires
            old(self).target_millis is Some,
        ensures
            r is Ok <==> final(self).target_millis is None,
            r is Err ==> *final(self) == *old(self),
    {
        let now = counter.count();
        self.wait_at(now)
    }
}

/// Whole milliseconds in a duration given as seconds plus a sub-second
/// millisecond remainder, as a countdown wants them. Remainders below one
/// millisecond have already been dropped by whoever truncated the
/// sub-second part to `subsec_millis`, so the result is the floor of the
/// duration in milliseconds.
pub fn duration_to_ms(secs: u64, subsec_millis: u32) -> (ms: u32)
    requires
        secs * 1000 + subsec_millis <= u32::MAX,
    ensures
        ms == secs * 1000 + subsec_millis,
{
    (secs as u32) * 1000 + subsec_millis
}

/// Rollover tolerance: a countdown armed at clock reading `start` for
/// `dur_ms` milliseconds has elapsed at reading `now` exactly when the
/// wrapped distance from `start` to `now` exceeds `dur_ms` — even when the
/// target wraps across 2^32 — provided the duration and the distance both
/// stay below 2^31.
pub proof fn lemma_rollover_tolerance(start: u32, dur_ms: u32, now: u32)
    requires
        dur_ms < 0x8000_0000,
        now.wrapping_sub(start) < 0x8000_0000,
    ensures
        has_elapsed(now, start.wrapping_add(dur_ms)) <==> now.wrapping_sub(start) > dur_ms,
{
}

/// Idle-wait exclusion: once its deadline has passed, a wait leaves the
/// countdown Idle, and Idle fails the precondition of every further wait
/// until the countdown is re-armed. A fresh countdown is Idle for the same
/// reason. Unverified callers that wait anyway hit the `unwrap` in
/// [`MillisCountDown::wait_at`] and panic, as a programming error should.
pub proof fn lemma_second_wait_excluded(t: MillisCountDown, now: u32)
    requires
        t.target_millis is Some,
        has_elapsed(now, t.target_millis->Some_0),
    ensures
        !(wait_transition(t, now).target_millis is Some),
{
}

/// Re-arm idempotence: arming a countdown and then re-arming it at a later
/// reading leaves it exactly as arming an Idle countdown once at that later
/// reading would — the first arming leaves no trace.
pub proof fn lemma_rearm_idempotent(
    t: MillisCountDown,
    idle: MillisCountDown,
    now1: u32,
    now2: u32,
    ms: u32,
)
    requires
        idle.target_millis is None,
    ensures
        start_transition(start_transition(t, now1, ms), now2, ms)
            == start_transition(idle, now2, ms),
{
}

} // verus!
