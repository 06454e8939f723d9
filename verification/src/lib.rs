//! A small orrery: bodies on circular orbits round a central body, drawn on a screen.
//!
//! Everything is whole numbers, in units fine enough that nothing that matters is
//! rounded. A position is held in nanometres and a velocity in micrometres per second,
//! so that a step of so many milliseconds is exact; a body is drawn at its whole
//! millimetres. A direction is a fixed-point unit vector, and a scale the ratio of two
//! whole numbers. A screen position is held exactly too, in steps of the grid of its
//! view. Each operation states its result over the unbounded integers, and one whose
//! result is beyond its limit says so and changes nothing.
//!
//! - [`body`] and [`orbit`]: what a body is, how it is placed on its orbit, how it moves.
//! - [`roster`]: the Sun and its planets.
//! - [`view`]: the mapping between physical and screen coordinates, and fitting it.
//! - [`hit`], [`input`], [`selection`]: which body a pointer press selects.
//! - [`draw`], [`stats`], [`text`]: what is drawn and shown.
//! - [`simulation`]: the state of a running simulation and the steps of one frame.
//! - [`arith`], [`heading`], [`vector`], [`error`]: the numbers underneath.

pub mod arith;
pub mod body;
pub mod draw;
pub mod error;
pub mod heading;
pub mod hit;
pub mod input;
pub mod orbit;
pub mod roster;
pub mod selection;
pub mod simulation;
pub mod stats;
pub mod text;
pub mod vector;
pub mod view;
