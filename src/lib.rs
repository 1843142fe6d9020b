//! Sharing of a nexus: exposing its device through NBD or iSCSI, optionally
//! behind an encryption device, and tearing that exposure down in order.
//! Each outside operation is a step that the caller performs; the nexus
//! decides what comes next from what the step reported.
use vstd::prelude::*;

pub mod completion;
pub mod crypto;
pub mod error;
pub mod nexus;
pub mod laws;
pub mod protocol;

verus! {

} // verus!
