//! Calibration values for programming the SysTick reload register.

use vstd::prelude::*;

use cortex_m::peripheral::SYST;

verus! {

/// Configuration information for setting the SysTick reload value.
pub struct SysTickCalibration {
    /// The number of ticks of the SysTick's clock source to get to 1 ms.
    ///
    /// Reload values are one fewer than the number of clock cycles in the
    /// period, since an extra cycle is always needed to detect the rollover
    /// and reload the counter.
    pub ticks_per_ms: u32,
}

impl SysTickCalibration {
    /// Gets the calibration from the chip's built-in "ticks per 10 ms"
    /// value.
    ///
    /// The reading is the chip's to decide, so what comes of each possible
    /// reading is pinned one call down, in
    /// [`from_ticks_per_10ms`](Self::from_ticks_per_10ms): `None` exactly
    /// when the reading is below nine (the register reads zero on devices
    /// without a calibration — some configurable-speed parts, for example —
    /// and fewer than nine ticks per 10 ms divide down to nothing at all).
    /// In those cases use [`from_clock_hz`](Self::from_clock_hz) instead.
    pub fn built_in() -> (r: Option<SysTickCalibration>)
        ensures
            r is Some ==> r->Some_0.ticks_per_ms <= 0x00FF_FFFF,
    {
        let calibrated_tick_value = SYST::get_ticks_per_10ms();
        Self::from_ticks_per_10ms(calibrated_tick_value)
    }

    /// Creates a calibration from a chip-reported "ticks per 10 ms" value,
    /// covering every reading the 24-bit calibration field can hold: `None`
    /// exactly when the reading is below nine, where the formula has no
    /// ticks left after the division.
    ///
    /// The reported value already carries the reload-register off-by-one for
    /// a 10 ms interval, so it is re-added before dividing down to 1 ms and
    /// subtracting it again. Readings of nine through eighteen yield
    /// `ticks_per_ms == 0`, a zero reload that
    /// [`PollingSysTick::new`](crate::PollingSysTick::new) refuses; a usable
    /// chip reports far more ticks than that.
    pub fn from_ticks_per_10ms(ticks_per_10ms: u32) -> (r: Option<SysTickCalibration>)
        requires
            ticks_per_10ms <= 0x00FF_FFFF,
        ensures
            r is Some <==> ticks_per_10ms >= 9,
            r is Some ==> r->Some_0.ticks_per_ms == (ticks_per_10ms + 1) / 10 - 1,
    {
        if ticks_per_10ms < 9 {
            None
        } else {
            Some(SysTickCalibration {
                // Leave one clock cycle for checking the overflow
                ticks_per_ms: (ticks_per_10ms + 1) / 10 - 1,
            })
        }
    }

    /// Creates a calibration from the underlying frequency of the clock that
    /// drives SysTick. This is typically the frequency the processor is
    /// currently running at.
    pub fn from_clock_hz(hz: u32) -> (r: SysTickCalibration)
        requires
            hz >= 1000,
        ensures
            r.ticks_per_ms == hz / 1000 - 1,
    {
        SysTickCalibration {
            ticks_per_ms: hz / 1_000 - 1,
        }
    }
}

} // verus!
