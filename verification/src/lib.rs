//! Core logic of a pair of cooperating system daemons that make sure
//! time-triggered maintenance jobs run even on machines that are usually
//! powered off or asleep.
//!
//! The scheduler half watches for impending sleep or shutdown, records resume
//! timestamps, and programs the hardware real-time clock so the machine wakes
//! for the next timer activation.  The runner half starts the payload unit and
//! decides afterwards whether the machine should be powered off or suspended
//! again.
//!
//! This crate holds the verified decision logic: clock-domain conversions,
//! calendar arithmetic for the RTC, the wake-alarm planner, the
//! inhibitor-lock state machine, and the boot/wake attribution rules.  The
//! thin process shells around it (D-Bus traffic, ioctls, file I/O) live
//! outside the library and hand plain values in and out.

pub mod adjtime;
pub mod attribution;
pub mod bus;
pub mod calendar;
pub mod inhibit;
pub mod planner;
pub mod power_monitor;
pub mod rtcwake;
pub mod session;
pub mod starter;
pub mod store;
pub mod time;

pub use time::{MonotonicInstant, RealtimeInstant};
