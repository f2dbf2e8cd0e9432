//! A bounded integer wrapper: a `u8` that is guaranteed to lie in an
//! inclusive range fixed at the type level.

use vstd::prelude::*;

verus! {

/// The single failure of this crate: a value handed to [`RangedU8::construct`]
/// lay outside the declared inclusive range.
#[derive(Debug, Clone, Copy, PartialEq, Eq)]
pub struct OutOfRange;

/// A `u8` whose value is known to lie in `[MIN, MAX]` inclusive.
///
/// The only way to obtain one is [`RangedU8::construct`], which rejects any
/// value outside the range, so every instance satisfies the bound for its
/// whole lifetime; there is no mutation path.
#[derive(Debug, Clone, Copy, PartialEq, Eq)]
pub struct RangedU8<const MIN: u8, const MAX: u8> {
    value: u8,
}

impl<const MIN: u8, const MAX: u8> RangedU8<MIN, MAX> {
    /// The stored value, as seen by specifications.
    pub closed spec fn spec_get(self) -> u8 {
        self.value
    }

    /// The range invariant: the stored value lies in `[MIN, MAX]`.
    #[verifier::type_invariant]
    pub open spec fn valid(self) -> bool {
        MIN <= self.spec_get() && self.spec_get() <= MAX
    }

    /// Builds a bounded value, failing with [`OutOfRange`] if and only if
    /// `value` lies outside `[MIN, MAX]`.
    pub fn construct(value: u8) -> (r: Result<Self, OutOfRange>)
        ensures
            r is Ok <==> MIN <= value <= MAX,
            r is Ok ==> r->Ok_0.spec_get() == value,
            r is Err ==> r->Err_0 == OutOfRange,
    {
        if MIN <= value && value <= MAX {
            Ok(RangedU8 { value })
        } else {
            Err(OutOfRange)
        }
    }

    /// Returns the stored value unchanged; it always lies in `[MIN, MAX]`.
    pub fn get(&self) -> (r: u8)
        ensures
            r == self.spec_get(),
            MIN <= r <= MAX,
    {
        proof {
            use_type_invariant(self);
        }
        self.value
    }
}

} // verus!
