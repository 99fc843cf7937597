//! A countdown timer as a verified state machine.
//!
//! The timer shows a duration as three text fields (hours, minutes,
//! seconds), counts it down against a monotonic clock supplied by the
//! caller, can be paused and resumed, remembers one marked duration, and
//! can be written to and restored from three decimal strings.

pub mod date_str;
pub mod decimal;
pub mod storage;
pub mod timer;
