//! The passive entity a simulated rotation is directed against.

use vstd::prelude::*;

verus! {

/// An inert placeholder: the target currently carries no state or behavior,
/// but the simulator holds one so a run is aimed at something.
pub struct Target {}

} // verus!
