//! Core of the tennis-tracker capture rig: the rules that decide device
//! tiers, match setup and court ends, capture profiles, link-layer
//! sequencing and duplicate suppression, ping bookkeeping for clock
//! synchronisation, recorder state transitions and manifest checks.
//!
//! Time never enters this crate as a clock reading: whatever depends on
//! time arrives from the caller as plain values.

pub mod clock;
pub mod device;
pub mod link;
pub mod remote;
pub mod session;
pub mod text;
