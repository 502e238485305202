//! Decision logic of the desktop app's agent commands: relay-mesh
//! configuration, avatar resolution, profile synchronisation and the
//! agent snapshot export.
use vstd::prelude::*;

pub mod agents;
pub mod export;
pub mod managed_agents;
pub mod relay;
pub mod snapshot;
pub mod text;

verus! {

} // verus!
