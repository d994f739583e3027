//! Verified core of a minimal system-tray launcher.
//!
//! The library owns every decision the launcher makes and none of its side
//! effects: it produces the bytes of the placeholder icon, chooses where the
//! icon lives, and drives the tray session as a state machine that tells its
//! host which operation to perform next and reacts to what came of it.

pub mod icon;
pub mod layout;
pub mod menu;
pub mod session;
pub mod run;
pub mod disk;
