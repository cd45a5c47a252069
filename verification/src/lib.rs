//! Game-logic core for a rail-riding balance game: a player entity follows a
//! fixed waypoint path while periodic random disruptions and discrete
//! controller events perturb a balance score and a handlebar rotation.
//!
//! All quantities are fixed-point integers: one unit of the game world is
//! `SCALE` ticks, so 0.8 world units are 800 ticks.

use vstd::prelude::*;

pub mod balance;
pub mod camera;
pub mod events;
pub mod fixed;
pub mod game;
pub mod path;
pub mod rng;
pub mod scene;
pub mod timer;

verus! {

} // verus!
