//! Which rows of a frame take part in the effect.

use vstd::prelude::*;

verus! {

/// The rows ("fields") of one frame that the effect processes.
#[derive(Debug, Clone, Copy, PartialEq, Eq, Structural)]
pub enum YiqField {
    Upper,
    Lower,
    Both,
    InterleavedUpper,
    InterleavedLower,
}

} // verus!
