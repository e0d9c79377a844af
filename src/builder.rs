use vstd::prelude::*;

use crate::precision::Precision;

verus! {

/// Starts building a value at the default precision.
#[derive(Clone, Copy, PartialEq, Eq, Debug, Structural)]
pub struct BigFloatBuilder;

/// Builds a value at a chosen precision.
#[derive(Clone, Copy, PartialEq, Eq, Debug, Structural)]
pub struct BigFloatBuilderWithPrec(Precision);

impl BigFloatBuilder {
    /// Fixes the precision of the value to build.
    pub fn with_prec(self, precision: Precision) -> (r: BigFloatBuilderWithPrec)
        ensures
            r.precision() == precision,
    {
        BigFloatBuilderWithPrec(precision)
    }
}

impl BigFloatBuilderWithPrec {
    pub closed spec fn precision(&self) -> Precision {
        self.0
    }

    /// The precision that the value will be allocated with.
    pub fn prec(&self) -> (r: Precision)
        ensures
            r == self.precision(),
    {
        self.0
    }
}

} // verus!
