//! The arithmetic that key geometry needs of its number type.

use vstd::prelude::*;

verus! {

/// A number type for key positions and sizes, measured in keyboard units.
///
/// The layout walker only ever converts whole numbers, adds, and takes the
/// larger of two values. Each operation has a specification counterpart, and
/// every contract about geometry is stated over those counterparts, so it
/// holds for whatever arithmetic an implementation supplies. An
/// implementation must compute what its counterparts say: the same result
/// for the same operands, every time.
///
/// Code that is compiled without verification sees the counterparts as
/// ordinary functions of the trait, and gives each the body of its operation.
pub trait Real: Copy + Sized {
    /// The value that stands for the whole number `n`.
    spec fn spec_from_integer(n: i64) -> Self;

    /// The sum of `self` and `rhs`.
    spec fn spec_plus(self, rhs: Self) -> Self;

    /// The larger of `self` and `rhs`.
    spec fn spec_larger(self, rhs: Self) -> Self;

    /// Converts a whole number.
    fn from_integer(n: i64) -> (r: Self)
        ensures
            r == Self::spec_from_integer(n),
    ;

    /// Adds `rhs` to `self`.
    fn plus(self, rhs: Self) -> (r: Self)
        ensures
            r == self.spec_plus(rhs),
    ;

    /// Takes the larger of `self` and `rhs`.
    fn larger(self, rhs: Self) -> (r: Self)
        ensures
            r == self.spec_larger(rhs),
    ;
}

/// `a + b` held to the range of `i64`.
pub open spec fn saturating_sum(a: i64, b: i64) -> i64 {
    if a + b > i64::MAX {
        i64::MAX
    } else if a + b < i64::MIN {
        i64::MIN
    } else {
        (a + b) as i64
    }
}

/// Whole keyboard units. Sums saturate at the ends of the range.
impl Real for i64 {
    open spec fn spec_from_integer(n: i64) -> Self {
        n
    }

    open spec fn spec_plus(self, rhs: Self) -> Self {
        saturating_sum(self, rhs)
    }

    open spec fn spec_larger(self, rhs: Self) -> Self {
        if self >= rhs {
            self
        } else {
            rhs
        }
    }

    fn from_integer(n: i64) -> (r: Self) {
        n
    }

    fn plus(self, rhs: Self) -> (r: Self) {
        if rhs > 0 && self > i64::MAX - rhs {
            i64::MAX
        } else if rhs < 0 && self < i64::MIN - rhs {
            i64::MIN
        } else {
            self + rhs
        }
    }

    fn larger(self, rhs: Self) -> (r: Self) {
        if self >= rhs {
            self
        } else {
            rhs
        }
    }
}

} // verus!
