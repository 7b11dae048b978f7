//! Physical quantities in fixed point.

use vstd::prelude::*;

verus! {

/// A temperature, a relative humidity or a light intensity, held as a whole
/// number of thousandths of its unit (degrees Celsius, percent, lux).
///
/// The view of a quantity is that number of thousandths.
#[derive(Clone, Copy, Debug, PartialEq, Eq, Structural)]
pub struct Quantity {
    pub milli: i64,
}

impl View for Quantity {
    type V = int;

    open spec fn view(&self) -> int {
        self.milli as int
    }
}

impl Quantity {
    /// Whether this quantity lies strictly below `target`.
    pub open spec fn below(self, target: Quantity) -> bool {
        self@ < target@
    }

    /// Whether this quantity lies above `target` by more than `band`.
    pub open spec fn above_band(self, target: Quantity, band: Quantity) -> bool {
        self@ - target@ > band@
    }

    /// The quantity of `milli` thousandths.
    pub fn from_milli(milli: i64) -> (q: Quantity)
        ensures
            q@ == milli,
    {
        Quantity { milli }
    }

    /// The quantity of `units` whole units.
    pub fn from_units(units: i32) -> (q: Quantity)
        ensures
            q@ == units * 1000,
    {
        let wide: i64 = units as i64;
        Quantity { milli: wide * 1000 }
    }

    /// Decides `self.below(target)`.
    pub fn is_below(self, target: Quantity) -> (b: bool)
        ensures
            b == self.below(target),
    {
        self.milli < target.milli
    }

    /// Decides `self.above_band(target, band)`; the difference is taken in
    /// a wider type, so no pair of quantities overflows it.
    pub fn is_above_band(self, target: Quantity, band: Quantity) -> (b: bool)
        ensures
            b == self.above_band(target, band),
    {
        let excess: i128 = self.milli as i128 - target.milli as i128;
        excess > band.milli as i128
    }
}

} // verus!
