//! A millisecond clock and countdown timers built on the Cortex-M SysTick
//! peripheral.
//!
//! [`PollingSysTick`] configures SysTick as a free-running 1 ms down-counter
//! and turns its rollover flag into a wrapping 32-bit millisecond count.
//! [`MillisCountDown`] instances poll any [`CountsMillis`] source and decide,
//! with rollover-safe arithmetic, whether a requested duration has elapsed.

pub mod calibration;
pub mod clock;
pub mod countdown;
mod hal;

pub use calibration::SysTickCalibration;
pub use clock::CountsMillis;
pub use clock::PollingSysTick;
pub use countdown::duration_to_ms;
pub use countdown::MillisCountDown;
