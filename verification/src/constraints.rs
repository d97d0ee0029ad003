//! The bounds under which a part of the control is measured.

use vstd::prelude::*;
use crate::geometry::Size;

verus! {

/// The most a part may take along one axis.
#[derive(Clone, Copy, Debug, PartialEq, Eq, Structural)]
pub enum Extent {
    /// At most this much.
    Finite(u32),
    /// As much as it likes.
    Unbounded,
}

impl Extent {
    /// Whether `length` is no more than this extent.
    pub open spec fn admits(self, length: u32) -> bool {
        match self {
            Extent::Finite(most) => length <= most,
            Extent::Unbounded => true,
        }
    }

    /// `length`, cut down to this extent where it exceeds it.
    pub open spec fn spec_cap(self, length: u32) -> u32 {
        match self {
            Extent::Finite(most) => if length <= most {
                length
            } else {
                most
            },
            Extent::Unbounded => length,
        }
    }

    /// `length`, cut down to this extent where it exceeds it.
    #[verifier::when_used_as_spec(spec_cap)]
    pub fn cap(self, length: u32) -> (r: u32)
        ensures
            r == self.spec_cap(length),
    {
        match self {
            Extent::Finite(most) => if length <= most {
                length
            } else {
                most
            },
            Extent::Unbounded => length,
        }
    }
}

/// The most a part may take along both axes.
#[derive(Clone, Copy, Debug, PartialEq, Eq, Structural)]
pub struct Limit {
    pub width: Extent,
    pub height: Extent,
}

/// A smallest and a largest size between which a part picks its own.
///
/// Nothing asks that the smallest fit under the largest. Where it does not,
/// the largest wins in [`BoxConstraints::constrain`].
#[derive(Clone, Copy, Debug, PartialEq, Eq, Structural)]
pub struct BoxConstraints {
    pub min: Size,
    pub max: Limit,
}

impl BoxConstraints {
    /// Whether `size` lies between the smallest and the largest size.
    pub open spec fn contains(&self, size: Size) -> bool {
        &&& self.min.width <= size.width
        &&& self.min.height <= size.height
        &&& self.max.width.admits(size.width)
        &&& self.max.height.admits(size.height)
    }

    /// Whether any size at all lies between the smallest and the largest.
    pub open spec fn can_be_met(&self) -> bool {
        self.contains(self.min)
    }

    /// Constraints from a smallest and a largest size.
    pub fn new(min: Size, max: Limit) -> (bc: BoxConstraints)
        ensures
            bc.min == min,
            bc.max == max,
    {
        BoxConstraints { min, max }
    }

    /// The same constraints without a smallest size.
    pub open spec fn spec_loosen(&self) -> BoxConstraints {
        BoxConstraints { min: Size::zero(), max: self.max }
    }

    /// The same constraints without a smallest size.
    #[verifier::when_used_as_spec(spec_loosen)]
    pub fn loosen(&self) -> (bc: BoxConstraints)
        ensures
            bc == self.spec_loosen(),
    {
        BoxConstraints { min: Size::zero(), max: self.max }
    }

    /// `size` brought within the constraints: along each axis first raised
    /// to the smallest size, then cut down to the largest.
    pub open spec fn spec_constrain(&self, size: Size) -> Size {
        Size {
            width: self.max.width.cap(at_least(size.width, self.min.width)),
            height: self.max.height.cap(at_least(size.height, self.min.height)),
        }
    }

    /// `size` brought within the constraints.
    #[verifier::when_used_as_spec(spec_constrain)]
    pub fn constrain(&self, size: Size) -> (r: Size)
        ensures
            r == self.spec_constrain(size),
    {
        Size {
            width: self.max.width.cap(at_least(size.width, self.min.width)),
            height: self.max.height.cap(at_least(size.height, self.min.height)),
        }
    }
}

/// `length`, raised to `least` where it falls short of it.
pub open spec fn spec_at_least(length: u32, least: u32) -> u32 {
    if length >= least {
        length
    } else {
        least
    }
}

/// `length`, raised to `least` where it falls short of it.
#[verifier::when_used_as_spec(spec_at_least)]
pub fn at_least(length: u32, least: u32) -> (r: u32)
    ensures
        r == spec_at_least(length, least),
{
    if length >= least {
        length
    } else {
        least
    }
}

} // verus!
