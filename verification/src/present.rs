//! The presence marker: a zero-size difference type.

use vstd::prelude::*;

use crate::IsZero;
use crate::Multiply;
use crate::Semigroup;

verus! {

/// A zero-sized difference that indicates the presence of a record.
///
/// This difference type has no negation, and present records cannot be
/// retracted. Addition maintains presence, and zero does not inhabit the
/// type: the zero test always returns false, so a present record is never
/// discarded as spent.
///
/// The primary feature of this type is that it has zero size, which removes
/// all per-record arithmetic and storage overhead in settings where records
/// are only ever added (monotone, append-only collections such as derived
/// facts).
#[derive(Copy, Ord, PartialOrd, Eq, PartialEq, Debug, Clone, Hash, Structural)]
pub struct Present;

impl IsZero for Present {
    type Model = ();

    open spec fn model(&self) -> () {
        ()
    }

    open spec fn model_ok(m: ()) -> bool {
        true
    }

    open spec fn model_is_zero(m: ()) -> bool {
        false
    }

    proof fn lemma_model_ok(v: Present) {
    }

    fn is_zero(&self) -> (r: bool) {
        false
    }
}

impl Semigroup for Present {
    open spec fn plus_ok(a: (), b: ()) -> bool {
        true
    }

    open spec fn plus_fn(a: (), b: ()) -> () {
        ()
    }

    fn twin(&self) -> (r: Present) {
        Present
    }

    fn plus_equals(&mut self, rhs: &Present) {
    }

    proof fn lemma_plus_commutes(a: (), b: ()) {
    }

    proof fn lemma_plus_associates(a: (), b: (), c: ()) {
    }
}

impl<T: Clone> Multiply<T> for Present {
    type Output = T;

    open spec fn multiply_ok(a: Present, b: T) -> bool {
        true
    }

    open spec fn multiply_rel(a: Present, b: T, c: T) -> bool {
        cloned::<T>(b, c)
    }

    fn multiply(self, rhs: &T) -> (r: T) {
        rhs.clone()
    }
}

} // verus!
