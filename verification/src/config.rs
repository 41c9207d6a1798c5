//! Configuration handling.

pub mod updater;
