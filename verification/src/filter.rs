//! Filter modes of the ladder filter.
use vstd::prelude::*;

verus! {

/// Which output of the ladder filter is taken.
#[derive(Debug, Clone, Copy, PartialEq, Eq, Structural)]
pub enum FilterType {
    LowPass,
    HighPass,
    BandPass,
}

} // verus!
