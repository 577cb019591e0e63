//! Trusted declarations for the hardware-facing and outside-crate calls.
//!
//! Everything here is believed, not proved: each item's contract states only
//! what the outside crate's source shows, and nothing about the SysTick
//! registers themselves, whose effects are invisible to the program.

use vstd::prelude::*;

use cortex_m::peripheral::syst::SystClkSource;
use cortex_m::peripheral::SYST;

verus! {

#[verifier::external_type_specification]
#[verifier::external_body]
pub struct ExSyst(SYST);

#[verifier::external_type_specification]
#[verifier::external_body]
#[verifier::reject_recursive_types(E)]
pub struct ExNbError<E>(nb::Error<E>);

#[verifier::external_type_specification]
#[verifier::external_body]
pub struct ExVoid(void::Void);

/// Relies on `cortex_m::peripheral::SYST::disable_interrupt`: clears the
/// TICKINT bit so that SysTick raises no exception. The call writes the
/// memory-mapped register block alone and leaves the handle value itself
/// untouched, as every register access in the crate does.
pub assume_specification[ SYST::disable_interrupt ](syst: &mut SYST)
    ensures
        *final(syst) == *old(syst),
;

/// Relies on `cortex_m::peripheral::SYST::set_reload`: writes the given
/// value to the SysTick reload register; the handle value itself is left
/// untouched.
pub assume_specification[ SYST::set_reload ](syst: &mut SYST, value: u32)
    ensures
        *final(syst) == *old(syst),
;

/// Relies on `cortex_m::peripheral::SYST::enable_counter`: sets the ENABLE
/// bit so the down-counter runs; the handle value itself is left untouched.
pub assume_specification[ SYST::enable_counter ](syst: &mut SYST)
    ensures
        *final(syst) == *old(syst),
;

/// Relies on `cortex_m::peripheral::SYST::has_wrapped`: reads the COUNTFLAG
/// bit, which the hardware sets on each rollover and clears on read. The
/// result depends on the hardware alone, so nothing is promised of it; the
/// handle value itself is left untouched.
pub assume_specification[ SYST::has_wrapped ](syst: &mut SYST) -> (wrapped: bool)
    ensures
        *final(syst) == *old(syst),
;

/// Relies on `cortex_m::peripheral::SYST::get_ticks_per_10ms`: reads the
/// TENMS field of the calibration register, masked there to its low 24
/// bits. The chip decides the value (zero where no calibration is
/// provided), so no more is promised of it.
pub assume_specification[ SYST::get_ticks_per_10ms ]() -> (r: u32)
    ensures
        r <= 0x00FF_FFFF,
;

/// Relies on `cortex_m::peripheral::SYST::set_clock_source`: selects the
/// processor core clock as the SysTick source; the handle value itself is
/// left untouched.
#[verifier::external_body]
pub(crate) fn set_clock_source_core(syst: &mut SYST)
    ensures
        *final(syst) == *old(syst),
{
    syst.set_clock_source(SystClkSource::Core);
}

/// Relies on `cortex_m::interrupt::free`: runs the closure with interrupts
/// masked, restoring the prior mask on exit, and returns its result. The
/// closure only calls the verified [`wrapping_increment`], whose contract
/// this one restates. Meaningful on a Cortex-M target only, like the rest
/// of the peripheral access.
#[verifier::external_body]
pub(crate) fn increment_with_interrupts_masked(counter: &mut u32)
    ensures
        *final(counter) == (*old(counter)).wrapping_add(1),
{
    cortex_m::interrupt::free(|_| wrapping_increment(counter));
}

/// Advances a wrapping millisecond counter by one.
pub(crate) fn wrapping_increment(counter: &mut u32)
    ensures
        *final(counter) == (*old(counter)).wrapping_add(1),
{
    *counter = counter.wrapping_add(1);
}

/// Relies on `nb::Error::WouldBlock`: builds the "not ready yet, poll again"
/// outcome that non-blocking waits hand back.
#[verifier::external_body]
pub(crate) fn would_block() -> (r: Result<(), nb::Error<void::Void>>)
    ensures
        r is Err,
{
    Err(nb::Error::WouldBlock)
}

} // verus!
