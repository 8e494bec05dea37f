use vstd::prelude::*;

verus! {

/// A signed position in a Scintilla document.
pub type Sci_Position = isize;
/// An unsigned position in a Scintilla document.
pub type Sci_PositionU = usize;
/// A position in a Scintilla character range.
pub type Sci_PositionCR = isize;

} // verus!
