//! Marker types binding a device handle to a concrete chip topology.
//!
//! Only the two supported topologies implement [`Sealed`], so only they can
//! instantiate the generic handle: arbitrary combinations of channel and
//! power register types that do not correspond to a real chip are rejected at
//! compile time.

use vstd::prelude::*;

verus! {

/// Marker of the quad channel topology.
pub struct Ad57x4 {}

/// Marker of the dual channel topology.
pub struct Ad57x2 {}

/// Sealing trait of the supported chip topologies.
pub trait Sealed {

}

impl Sealed for Ad57x4 {

}

impl Sealed for Ad57x2 {

}

} // verus!
