//! Live configuration for a game modification: a polling cache over a
//! configuration file, the lock-free time cells it keeps its bookkeeping in,
//! the surroundings in which the hooks work on the modification's state, and
//! the bit-level helpers of the shader and physics glue.

pub mod config;
pub mod game;
pub mod hooks;
pub mod raycast;
pub mod shaders;
pub mod world;
