//! An in-memory to-do list with a menu-driven controller.
//!
//! The item list keeps its texts trimmed, non-empty and distinct when
//! compared without regard to ASCII case. The controller is a state
//! machine: each user event yields the next state, the notices to show and
//! the next prompt. Terminal I/O is left to the caller.

pub mod text;
pub mod item;
pub mod store;
pub mod present;
pub mod menu;
