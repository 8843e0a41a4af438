//! The sealing trait for the closed set of buffer target kinds.

use vstd::prelude::*;

verus! {

/// Implemented only by the marker types of this crate, so that no outside
/// code can invent a new buffer target kind.
pub trait Sealed {

}

} // verus!
