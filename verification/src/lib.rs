//! A real-time 2D flocking simulation: a population of sheep steered each
//! tick by separation, alignment, cohesion, a fixed per-agent bias and
//! boundary damping inside a resizable field, together with a dog that
//! obeys discrete herding commands.
//!
//! All quantities are fixed-point integers. Positions and velocities are
//! plain `i64` world units; fractional tuning factors are carried in
//! micro-units (millionths), the boundary margin in milli-units
//! (thousandths), and the per-tick time step in milliseconds. Divisions
//! round toward negative infinity (floor division).

pub mod num;

pub mod vec2;

pub mod field;

pub mod game_control;

pub mod dog;

pub mod sheep;

pub mod flocking;
