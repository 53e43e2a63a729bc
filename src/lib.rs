//! Per-frame simulation of a small top-down prototype: one player that moves
//! inside a fixed window and fires projectiles ("tears") on a cooldown.
//!
//! Everything is kept in exact integer units so that the rules can be proved:
//! - lengths are counted in billionths of a world unit (`UNIT` per unit);
//! - durations are counted in nanoseconds (`SECOND` per second), so a speed
//!   in units per second times a duration gives a length directly;
//! - tear directions are counted in halves (`DIRECTION_SCALE` per unit).
pub mod units;
pub mod player;
pub mod tear;
pub mod world;
pub mod save;
pub mod laws;
