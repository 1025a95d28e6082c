//! Control logic for a motorized treadmill retrofit.
//!
//! The crate turns noisy sensor edges and user commands into actuator
//! settings and observer events.  All timing, speeds and duty cycles are
//! fixed point integers: pulse periods in milliseconds, belt speeds in
//! thousandths (raw samples) or hundredths (reported values) of a km/h,
//! and duty cycles in hundredths of a percent of the PWM period.
//!
//! The crate itself never touches hardware or channels.  A host program
//! owns the pins and the command/event plumbing, feeds samples and
//! commands in, and performs the [`rptreadmill::Action`]s that come back.

pub mod rptreadmill;
pub mod signal;
pub mod treadmill;
pub mod watcher;
