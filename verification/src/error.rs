//! The one error of this crate.

use vstd::prelude::*;

verus! {

/// What a constructor returns when it is handed a configuration that cannot
/// describe a simulation: a board without cells, or a speed whose interval
/// is zero.
#[derive(Clone, Copy, Debug, PartialEq, Eq, Structural)]
pub struct InvalidConfiguration;

} // verus!
