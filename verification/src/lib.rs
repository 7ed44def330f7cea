//! Verified core of a menu-bar mindfulness bell: when the next bell is due,
//! the scheduler's decisions, what a bell does, and how settings are stored.

pub mod clock;
pub mod aligned;
pub mod schedule;
pub mod settings;
pub mod bell;
pub mod tray;
pub mod media;
