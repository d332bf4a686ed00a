//! Glitch effects for a drawable surface: a catalog of effect kinds, a
//! dispatcher that maps each kind to the primitive drawing calls it issues,
//! and a sequencer that plays a list of effects with a pause after each.
//!
//! The library computes calls; whoever owns the real surface performs them.

pub mod complexeffect;
pub mod effects;
pub mod utils;

use vstd::prelude::*;

verus! {


} // verus!
