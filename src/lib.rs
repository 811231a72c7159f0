//! Decides when a daily "night" window begins and ends, and when a periodic
//! poller has to re-apply the display mode that the window asks for.
pub mod handles;
pub mod instant;
pub mod scheduler;
pub mod timerange;

pub use handles::{pack_ptr, pack_ptr_from_rc, unpack_ptr, HandleTable};
pub use instant::LocalInstant;
pub use scheduler::NightModeScheduler;
pub use timerange::{TimeOfDay, TimeRange, SECONDS_PER_DAY};
