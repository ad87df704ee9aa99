//! Control core of a small gravitational N-body simulation: the time
//! controller that decides how far each frame advances, the viewport zoom
//! level, the pairwise interaction schedule used when summing forces, and
//! the composition of the initial world.

use vstd::prelude::*;

pub mod controls;
pub mod interaction;
pub mod time_control;
pub mod world;
