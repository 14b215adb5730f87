//! The scalar measurement value.

use vstd::prelude::*;

verus! {

/// A dimensionless fixed-point scalar: a whole number of millionths of a
/// unit. The unit itself (meter, bar, kilogram, ...) is implied by which
/// conversion is applied to the value, not carried by the value.
#[derive(Clone, Copy, Debug, PartialEq, Eq, Structural)]
pub struct Fixed {
    pub micros: i64,
}

impl View for Fixed {
    type V = int;

    open spec fn view(&self) -> int {
        self.micros as int
    }
}

impl Fixed {
    /// Builds a value from its mantissa, a count of millionths of a unit.
    pub fn from_micros(micros: i64) -> (r: Fixed)
        ensures
            r@ == micros,
    {
        Fixed { micros }
    }

    /// The mantissa: the value as a count of millionths of a unit.
    pub fn micros(&self) -> (r: i64)
        ensures
            r == self@,
    {
        self.micros
    }
}

} // verus!
