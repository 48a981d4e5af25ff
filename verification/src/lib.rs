//! Decision logic of a set of gameplay plugins: deployment modes and random
//! emblems, a player-phase turn timer, raised class stat caps and permanent
//! HP growth. Everything here works on plain values; the game itself is
//! reached from the `app` crate, which feeds these functions what it reads
//! and performs what they decide.
use vstd::prelude::*;

pub mod config;
pub mod patches;
pub mod deployment;
pub mod emblems;
pub mod timer;
pub mod perm_hp;
pub mod stat_caps;
pub mod menu;

verus! {

} // verus!
