//! A fixed/variable-hybrid timestep game-loop scheduler.
//!
//! The scheduler decouples a target render cadence from a target
//! simulation-update cadence, drives both from a single monotonic time
//! source, and handles drift, missed frames, simulation backlog and
//! event-driven early exit with a minimal number of time-source queries
//! per iteration.

pub mod clock;
pub mod events;
pub mod logic;
pub mod resource;
pub mod scheduler;
pub mod settings;
pub mod util;
