//! A query/control surface over a desktop windowing environment.
//!
//! The library models the platform state it queries — the open top-level
//! windows, the primary display, the cursor and the desktop drawing
//! surface — as an explicit [`desktop::Desktop`] value, and verifies every
//! operation against that model: screen size, window position and size by
//! exact title lookup, window focus, cursor get/set, and pixel sampling
//! formatted as a hexadecimal color string.

pub mod desktop;
pub mod geometry;
pub mod hex;
pub mod ops;
