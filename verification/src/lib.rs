//! Repositioning policy for off-screen desktop windows.
//!
//! The library decides, from a snapshot of a window's state and the screen
//! bounds, whether the window is insufficiently visible and, if so, which
//! corrective action to apply. The operating-system calls that gather the
//! snapshot and carry the action out live outside the library.

pub mod geometry;
pub mod policy;
pub mod title;
