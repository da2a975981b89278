use vstd::prelude::*;

pub mod achievements;
pub mod audio;
pub mod camera;
pub mod checklist;
pub mod clock;
pub mod config;
pub mod events;
pub mod flight;
pub mod flyby;
pub mod overlays;
pub mod reentry;
pub mod replay;
pub mod save;
pub mod states;
pub mod text;
pub mod tli;
pub mod trail;

verus! {

} // verus!
