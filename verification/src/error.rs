use vstd::prelude::*;

verus! {

/// Why a command to the simulation was turned down. Every such refusal
/// leaves the state it was aimed at as it was.
#[derive(Clone, Copy, Debug, PartialEq, Eq, Structural)]
pub enum SimError {
    /// A particle fill would not fit into the store's fixed allocation.
    CapacityExceeded,
    /// A grid dimension, a timestep or a frame rate that no simulation can run with.
    InvalidConfiguration,
}

} // verus!
