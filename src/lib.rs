use vstd::prelude::*;

pub mod command;
pub mod components;
pub mod scheduler;
pub mod setup;
pub mod spritesheet;
pub mod systems;
pub mod world;

verus! {

} // verus!
