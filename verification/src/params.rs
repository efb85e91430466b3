//! The search interval of a model parameter.

use vstd::prelude::*;

verus! {

/// The closed interval in which a model parameter is searched. The bounds of
/// the models in this crate are whole numbers, so both ends are integers in
/// the parameter's own unit.
#[derive(Clone, Copy, Debug, PartialEq, Eq)]
pub struct ParamBound {
    pub lower: i32,
    pub upper: i32,
}

impl ParamBound {
    /// A bound leaves room to search: its lower end lies strictly below its
    /// upper end.
    pub open spec fn is_ordered(self) -> bool {
        self.lower < self.upper
    }
}

} // verus!
