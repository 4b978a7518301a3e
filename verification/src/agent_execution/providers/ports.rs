use vstd::prelude::*;

verus! {

/// How provider resources were released.
#[derive(Clone, Copy, Debug, PartialEq, Eq, Structural)]
pub struct CloseOutcome {
    /// Whether release required forcing the provider process.
    pub forced: bool,
}

} // verus!
