//! Gameplay core of a small 2D fishing game: sprite animations, actors that
//! walk, swim and get hooked, catch detection and scoring, and the screen and
//! countdown state of a round. Everything is in whole pixels and in ticks; the
//! host supplies input, wall-clock time and draws what comes back.

pub mod geometry;
pub mod random;
pub mod animation;
pub mod actor;
pub mod catch;
pub mod game_state;
pub mod session;
pub mod text;
