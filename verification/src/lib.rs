//! Verified core of a keyboard-backlight configuration synchronizer.
//!
//! The device driver exposes one plain-text attribute file per configuration
//! field under a fixed directory. This crate holds the verified logic of the
//! synchronizer: the field schema, the per-field read encoding, the fail-fast
//! read state machine, and the change-only write planner and its state
//! machine. The surrounding application performs the actual file reads and
//! writes and feeds their outcomes back into these state machines.

pub mod reader;
pub mod record;
pub mod schema;
pub mod writer;
