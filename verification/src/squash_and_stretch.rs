//! The axis along which squash and stretch deform a node.

use vstd::prelude::*;

verus! {

/// Which axis the squash/stretch operates on.
#[derive(Clone, Copy, Debug, PartialEq, Eq, Structural)]
pub enum SquashAxis {
    X,
    Y,
    Z,
}

/// The default axis is `Y` (up).
impl Default for SquashAxis {
    fn default() -> (r: SquashAxis)
        ensures
            r == SquashAxis::Y,
    {
        SquashAxis::Y
    }
}

impl SquashAxis {
    /// Per-axis values: `main` on this axis, `cross` on the other two.
    pub fn arrange<T: Copy>(self, main: T, cross: T) -> (r: (T, T, T))
        ensures
            r.0 == (if self == SquashAxis::X { main } else { cross }),
            r.1 == (if self == SquashAxis::Y { main } else { cross }),
            r.2 == (if self == SquashAxis::Z { main } else { cross }),
    {
        match self {
            SquashAxis::X => (main, cross, cross),
            SquashAxis::Y => (cross, main, cross),
            SquashAxis::Z => (cross, cross, main),
        }
    }
}

} // verus!
