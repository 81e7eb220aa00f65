//! Input normalisation and player assignment for a small game runtime.
//!
//! Each frame a pool of physical input devices (NES-style pads, dual-stick
//! controllers, keyboards) is distributed among the players of a game, every
//! player receiving a snapshot of exactly the device type the game declared
//! for them. Everything here is synchronous, total and free of side effects.
//!
//! * [`input`] holds the devices, how they match, project and merge, the
//!   pool, and the assignment of the pool to the players, with its laws.
//! * [`info`] and [`arguments`] hold what a game declares and what it is
//!   handed for a step.
//! * [`output`] holds the image a game draws.
//! * [`serial`] frames encoded values with their size, over [`endian`].
//! * [`pacing`] decides how many steps are due.

pub mod arguments;
pub mod endian;
pub mod info;
pub mod input;
pub mod output;
pub mod pacing;
pub mod serial;

pub use arguments::{InputArguments, PlayerInputArguments, RenderAudioArguments, StepArguments};
pub use info::Info;
