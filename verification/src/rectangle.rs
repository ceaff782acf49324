//! A rectangle and its area.

use vstd::prelude::*;

verus! {

/// An axis-aligned rectangle with whole-numbered sides.
#[derive(Clone, Copy, Debug, PartialEq, Eq, Structural)]
pub struct Rectangle {
    pub width: u32,
    pub height: u32,
}

impl Rectangle {
    /// The area as a mathematical integer: width times height.
    pub open spec fn spec_area(self) -> int {
        self.width * self.height
    }

    /// The area of the rectangle. The product of two `u32` always fits in a
    /// `u64`, so every rectangle has one.
    pub fn area(&self) -> (r: u64)
        ensures
            r == self.spec_area(),
    {
        let w: u64 = self.width as u64;
        let h: u64 = self.height as u64;
        assert(w * h <= 0xFFFF_FFFF * 0xFFFF_FFFF) by (nonlinear_arith)
            requires
                0 <= w <= 0xFFFF_FFFF,
                0 <= h <= 0xFFFF_FFFF,
        ;
        w * h
    }
}

} // verus!
