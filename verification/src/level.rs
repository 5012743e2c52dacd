//! Support levels: how much of the surrounding text an executor may consume.

use core::cmp::Ordering;
use vstd::prelude::*;

verus! {

/// How much context an executor is allowed to read, from nothing at all up to
/// the whole file. The variants are declared in ascending order, and each level
/// includes every capability of the levels below it.
#[derive(Clone, Copy, Debug, PartialEq, Eq, Structural, Ord, Hash)]
pub enum SupportLevel {
    /// The executor may read nothing.
    Unsupported,
    /// The line under the cursor.
    Line,
    /// A contiguous block of lines.
    Bloc,
    /// A block together with the imports it depends on.
    Import,
    /// The whole file.
    File,
}

impl SupportLevel {
    /// The position of a level in the order, counted from `Unsupported`.
    pub open spec fn rank(self) -> nat {
        match self {
            SupportLevel::Unsupported => 0,
            SupportLevel::Line => 1,
            SupportLevel::Bloc => 2,
            SupportLevel::Import => 3,
            SupportLevel::File => 4,
        }
    }

    /// `self` grants everything that `other` grants.
    pub open spec fn covers(self, other: SupportLevel) -> bool {
        self.rank() >= other.rank()
    }

    /// The lower of two levels.
    pub open spec fn lower(self, other: SupportLevel) -> SupportLevel {
        if self.rank() <= other.rank() {
            self
        } else {
            other
        }
    }

    /// The position of this level in the order.
    pub fn position(self) -> (r: u8)
        ensures
            r == self.rank(),
    {
        match self {
            SupportLevel::Unsupported => 0,
            SupportLevel::Line => 1,
            SupportLevel::Bloc => 2,
            SupportLevel::Import => 3,
            SupportLevel::File => 4,
        }
    }

    /// Whether this level grants everything that `other` grants.
    pub fn at_least(self, other: SupportLevel) -> (r: bool)
        ensures
            r == self.covers(other),
    {
        self.position() >= other.position()
    }
}

impl PartialOrd for SupportLevel {
    /// Compares two levels by their positions in the order.
    fn partial_cmp(&self, other: &SupportLevel) -> (r: Option<Ordering>) {
        let mine = self.position();
        let theirs = other.position();
        if mine < theirs {
            Some(Ordering::Less)
        } else if mine == theirs {
            Some(Ordering::Equal)
        } else {
            Some(Ordering::Greater)
        }
    }
}

impl vstd::std_specs::cmp::PartialOrdSpecImpl for SupportLevel {
    open spec fn obeys_partial_cmp_spec() -> bool {
        true
    }

    open spec fn partial_cmp_spec(&self, other: &SupportLevel) -> Option<Ordering> {
        if self.rank() < other.rank() {
            Some(Ordering::Less)
        } else if self.rank() == other.rank() {
            Some(Ordering::Equal)
        } else {
            Some(Ordering::Greater)
        }
    }
}

} // verus!
