//! Errors raised while decoding a level description or a recorded path.
//! All of them are fatal to the load: no partially loaded level is ever
//! handed out.

use vstd::prelude::*;

verus! {

/// Why a level or a recorded path failed to load.
#[derive(Clone, Copy, Debug, PartialEq, Eq, Structural)]
pub enum LoadError {
    /// A token of the level description names no tile kind.
    BadTile,
    /// The tile grid is empty, not rectangular, or larger than the supported
    /// grid dimensions.
    BadShape,
    /// A coordinate of the recorded path is not a decimal number in range.
    BadNumber,
}

} // verus!
