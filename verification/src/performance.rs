//! Which hit results a score is given when only its accuracy is known.

use vstd::prelude::*;

verus! {

/// The hit results to assume for a score of which only the accuracy is
/// known: the best ones, the worst ones, or the ones found fastest.
#[derive(Copy, Clone, Debug, PartialEq, Eq, Structural)]
pub enum PyHitResultPriority {
    BestCase,
    WorstCase,
    Fastest,
}

impl Default for PyHitResultPriority {
    fn default() -> (priority: Self)
        ensures
            priority == PyHitResultPriority::BestCase,
    {
        PyHitResultPriority::BestCase
    }
}

} // verus!
