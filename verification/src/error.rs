use vstd::prelude::*;

verus! {

/// A formatting error.
///
/// Formatting fails as a whole: either the input could not be parsed into a
/// syntax tree, or the tree holds a construct for which there is no rendering
/// rule.  The value carries nothing beyond the fact of the failure.
#[derive(Debug)]
pub struct Error {
    _p: (),
}

impl Error {
    /// The error raised for a construct without a rendering rule.
    pub(crate) fn unsupported() -> (e: Error) {
        Error { _p: () }
    }
}

} // verus!
