use vstd::prelude::*;

pub mod integrator;
pub mod trajectory;

verus! {

/// Number of halvings of the initial timestep tried before a build gives up.
pub const MAX_HALVINGS: u32 = 60;

} // verus!
