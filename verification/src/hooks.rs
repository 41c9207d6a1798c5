//! The decisions that the hooks into the game take.

pub mod tae;
