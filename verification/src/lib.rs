//! Alloy: the state, rules and text of a terminal music player, with their
//! contracts proved by Verus.

pub mod app_state;
pub mod display;
pub mod loader;
pub mod playlist;
pub mod song;
pub mod text;
