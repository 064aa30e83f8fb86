//! Pointer and keyboard input for a wlc-based compositor: the value types
//! that cross the boundary to the windowing subsystem, and the bounded copy
//! of the pressed-key array it reports.
pub mod keyboard;
pub mod types;
pub mod xkb;
