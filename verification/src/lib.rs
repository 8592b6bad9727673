//! A turn-based artillery duel over a generated skyline: skyline generation,
//! character placement, projectile flight with collision resolution, and the
//! match, round and turn state machine, all on integers and fixed-point values.

pub mod cityscape;
pub mod field;
pub mod game;
pub mod numeric;
pub mod random;
pub mod round;
pub mod shot;
pub mod text;
