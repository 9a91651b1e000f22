//! The error of reading while nothing is there to read.

use vstd::prelude::*;

verus! {

/// A despawn was read while no reactor was reacting to one.
#[derive(Clone, Copy, Debug, PartialEq, Eq, Structural)]
pub struct NotReactingError;

} // verus!
