//! Discrete core of a Monte-Carlo path tracer: render configuration checks,
//! per-pixel seeding, intersection bookkeeping over ordered distance keys,
//! the depth-bounded path state machine, and assembly of the final image.

pub mod config;
pub mod film;
pub mod grid;
pub mod hit;
pub mod path;
pub mod scatter;
pub mod seed;
