//! Animation and movement core of a small side-scrolling hero: a library of
//! frame sequences per animation state, a catch-up clock, and the actor state
//! machine driven by keyboard events and update ticks.

pub mod animation;
pub mod clock;
pub mod actor;
pub mod game;
