//! The polling millisecond clock over the SysTick peripheral.

use vstd::prelude::*;

use cortex_m::peripheral::SYST;

use crate::calibration::SysTickCalibration;
use crate::hal::increment_with_interrupts_masked;
use crate::hal::set_clock_source_core;

verus! {

/// A counter that goes up as milliseconds pass, wrapping at 2^32.
///
/// Factored out to leave the door open for different SysTick counters, such
/// as counting via interrupts. The value must not increment faster than
/// once per millisecond — a wall-clock bound no contract here can state.
/// Reading takes `&mut self` because polling sources advance their own
/// state as a side effect of the read.
pub trait CountsMillis {
    /// Returns the current wrapping millisecond count.
    fn count(&mut self) -> u32;
}

/// Millisecond counter based on SysTick.
///
/// Effectively a singleton, because constructing it consumes the only
/// `SYST` value in the program (use [`free`](Self::free) to get it back).
///
/// The SysTick reload value is set to a count that takes 1 ms to decrement,
/// and each [`count`](Self::count) call that observes the rollover flag
/// advances the stored millisecond count by one. The count is therefore
/// never faster than SysTick, and keeps accurate time only while `count`
/// is being polled at least once per rollover window.
pub struct PollingSysTick {
    syst: SYST,
    /// The wrapping count of rollovers observed so far.
    millis: u32,
}

/// One polling step: the millisecond count after a [`PollingSysTick::count`]
/// call that observed the rollover flag `wrapped`. Both the executable clock
/// (through [`PollingSysTick::note_poll`]) and the sequence model
/// ([`count_after`]) advance by exactly this step.
pub open spec fn count_step(ms: u32, wrapped: bool) -> u32 {
    if wrapped {
        ms.wrapping_add(1)
    } else {
        ms
    }
}

impl PollingSysTick {
    /// The stored wrapping millisecond count: the number of rollovers
    /// observed so far, modulo 2^32.
    pub closed spec fn spec_millis(&self) -> u32 {
        self.millis
    }

    /// The SysTick handle taken at construction and returned by
    /// [`free`](Self::free).
    pub closed spec fn spec_syst(&self) -> SYST {
        self.syst
    }

    /// Configures SysTick based on the values provided in the calibration:
    /// interrupt off, core clock as source, the calibration's reload value,
    /// counter running. The millisecond count starts at zero; the hardware
    /// counter may start mid-interval, so the first interval can jitter by
    /// up to 1 ms.
    pub fn new(syst: SYST, calibration: &SysTickCalibration) -> (r: Self)
        requires
            0 < calibration.ticks_per_ms <= 0xFF_FFFF,
        ensures
            r.spec_millis() == 0,
            r.spec_syst() == syst,
    {
        let mut syst = syst;
        syst.disable_interrupt();
        set_clock_source_core(&mut syst);
        syst.set_reload(calibration.ticks_per_ms);
        syst.enable_counter();
        PollingSysTick { syst, millis: 0 }
    }

    /// Turns this value back into the underlying SysTick: the very handle
    /// that [`new`](Self::new) consumed, which no call in between replaces.
    pub fn free(self) -> (r: SYST)
        ensures
            r == self.spec_syst(),
    {
        self.syst
    }

    /// Advances the stored count for one poll that observed the rollover
    /// flag `wrapped`: by exactly one when the flag was set, not at all when
    /// it was clear — one [`count_step`]. The increment is done with
    /// interrupts masked, because polling may also happen from an interrupt
    /// context.
    pub fn note_poll(&mut self, wrapped: bool)
        ensures
            final(self).spec_millis() == count_step(old(self).spec_millis(), wrapped),
            final(self).spec_syst() == old(self).spec_syst(),
    {
        if wrapped {
            increment_with_interrupts_masked(&mut self.millis);
        }
    }

    /// Polls the rollover flag and returns the updated millisecond count.
    ///
    /// The flag is the hardware's to decide, so all this contract can say is
    /// that the count stays or advances by one, monotonically non-decreasing
    /// modulo 2^32 across calls; [`note_poll`](Self::note_poll) carries the
    /// exact tie between the observed flag and the advance.
    pub fn count(&mut self) -> (r: u32)
        ensures
            final(self).spec_millis() == old(self).spec_millis()
                || final(self).spec_millis() == old(self).spec_millis().wrapping_add(1),
            final(self).spec_syst() == old(self).spec_syst(),
            r == final(self).spec_millis(),
    {
        let wrapped = self.syst.has_wrapped();
        self.note_poll(wrapped);
        self.millis
    }
}

impl CountsMillis for PollingSysTick {
    fn count(&mut self) -> u32 {
        PollingSysTick::count(self)
    }
}

/// The millisecond count after starting at `init` and observing, in order,
/// one rollover flag per [`PollingSysTick::count`] call: the fold of
/// [`count_step`] — the very step [`PollingSysTick::note_poll`] ensures —
/// over the observed flags.
pub open spec fn count_after(init: u32, rollovers: Seq<bool>) -> u32
    decreases rollovers.len(),
{
    if rollovers.len() == 0 {
        init
    } else {
        count_step(count_after(init, rollovers.drop_last()), rollovers.last())
    }
}

/// How many of the observed flags were rollovers.
pub open spec fn rollovers_seen(rollovers: Seq<bool>) -> nat
    decreases rollovers.len(),
{
    if rollovers.len() == 0 {
        0
    } else {
        rollovers_seen(rollovers.drop_last()) + if rollovers.last() {
            1nat
        } else {
            0nat
        }
    }
}

/// The clock advances by exactly one per observed rollover: after any
/// sequence of observations the count is the initial count plus the number
/// of rollovers seen, modulo 2^32.
pub proof fn lemma_count_is_rollovers_seen(init: u32, rollovers: Seq<bool>)
    ensures
        count_after(init, rollovers) == (init + rollovers_seen(rollovers)) % 0x1_0000_0000,
    decreases rollovers.len(),
{
    if rollovers.len() > 0 {
        lemma_count_is_rollovers_seen(init, rollovers.drop_last());
        let seen_before = rollovers_seen(rollovers.drop_last());
        vstd::arithmetic::div_mod::lemma_add_mod_noop(
            init + seen_before,
            if rollovers.last() { 1int } else { 0int },
            0x1_0000_0000,
        );
    }
}

/// Monotonicity under polling: across any sequence of observed rollovers,
/// each successive reading equals the previous one or advances it by
/// exactly one, modulo 2^32 — the readings are monotonically non-decreasing
/// in wrapping arithmetic.
pub proof fn lemma_count_monotonic(init: u32, rollovers: Seq<bool>, i: int)
    requires
        0 <= i < rollovers.len(),
    ensures
        ({
            let before = count_after(init, rollovers.take(i));
            let after = count_after(init, rollovers.take(i + 1));
            after == before || after == before.wrapping_add(1)
        }),
{
    assert(rollovers.take(i + 1).drop_last() =~= rollovers.take(i));
}

} // verus!
