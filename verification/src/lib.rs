//! The logic of a desk clock: which calendar events to show next to the
//! clock face, in what order, and with what emphasis.
//!
//! Every function here is verified against its contract. Timestamps are
//! plain integers ([`local_time::LocalTime`]); chrono is called for the
//! system clock and for turning a timestamp into text.

pub mod clock;
pub mod date_ext;
pub mod filter;
pub mod google;
pub mod label;
pub mod local_time;
pub mod view;
