use vstd::prelude::*;

verus! {

/// The one failure this layer can report: the platform answered a window-size
/// query with a zero row or column count, meaning the size is unavailable.
#[derive(Clone, Copy, Debug, PartialEq, Eq, Structural)]
pub enum Error {
    InvalidWindowSize,
}

} // verus!
