//! Rules of a small wrap-around arcade game: rock classes, level progression,
//! the pause timer and the level banner.
pub mod banner;
pub mod class;
mod draw;
pub mod state;
