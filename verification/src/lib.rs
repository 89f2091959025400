//! Algebraic capabilities for "difference" values in an incremental
//! computation engine.
//!
//! A difference records how much a logical record's accumulation changed:
//! most often a signed count, but possibly a richer quantity such as a count
//! paired with a weight. The engine repeatedly merges many small updates for
//! the same record, so the operations it needs are addition into an existing
//! accumulation, a test for the neutral element (so spent updates can be
//! retired), an optional zero constructor, an optional negation (to retract
//! prior updates), and an optional scalar-like combination with a data value.
//!
//! Each capability is a trait. Besides its executable method, a trait
//! carries a mathematical model of the types that implement it: an
//! associated model type, spec functions giving each operation's meaning on
//! models, and proof obligations for the algebraic laws every implementation
//! must satisfy. Addition is commutative and associative; adding the zero
//! element changes nothing and the zero element tests as zero; a negation
//! added to the original value yields a value that tests as zero.

use vstd::prelude::*;

mod present;
mod primitive;
mod tuple;
mod vector;
mod wrapping;

pub use present::Present;
pub use vector::plus_equals_slice;
pub use vector::seq_model;
pub use vector::seq_plus_fn;
pub use vector::seq_plus_ok;
pub use wrapping::WrappingI128;
pub use wrapping::WrappingI16;
pub use wrapping::WrappingI32;
pub use wrapping::WrappingI64;
pub use wrapping::WrappingI8;
pub use wrapping::WrappingIsize;

verus! {

/// A type with an additive-identity test, independent of addition itself.
///
/// This capability is kept separate from [`Monoid`] so that a type can offer
/// the test without offering a zero constructor: some difference types (for
/// example the presence marker [`Present`]) have no zero value at all, and
/// for such a type the test simply never returns true.
///
/// The trait also fixes the mathematical model that all further capabilities
/// are specified against: fixed-width integers are modelled by unbounded
/// integers, sequences by mathematical sequences of element models.
pub trait IsZero: Sized {
    /// The mathematical model of a value of this type.
    type Model;

    /// The model of `self`.
    spec fn model(&self) -> Self::Model;

    /// Which model values actual values can take (for fixed-width integers:
    /// the representable range).
    spec fn model_ok(m: Self::Model) -> bool;

    /// What the zero test means, on models.
    spec fn model_is_zero(m: Self::Model) -> bool;

    /// Law: the model of every value is a possible model.
    proof fn lemma_model_ok(v: Self)
        ensures
            Self::model_ok(v.model()),
    ;

    /// Returns true if the element is the additive identity.
    ///
    /// The engine uses this to know when an accumulated update has no further
    /// effect and can be discarded.
    fn is_zero(&self) -> (r: bool)
        ensures
            r == Self::model_is_zero(self.model()),
    ;
}

/// A type with in-place addition and a test for zero.
///
/// These are the minimal requirements for a difference type: addition lets
/// updates to the same record be compacted, and the zero test lets spent
/// updates be retired. The [`Semigroup::twin`] method supplies the
/// value-preserving copy the engine needs when one difference must be held
/// in two places at once. Implementations owe proofs that addition on models
/// is commutative and associative; all instantiations provided here are
/// commutative.
pub trait Semigroup: IsZero {
    /// When the executable addition is defined (for fixed-width integers:
    /// when the mathematical sum stays representable).
    spec fn plus_ok(a: Self::Model, b: Self::Model) -> bool;

    /// The meaning of addition, on models.
    spec fn plus_fn(a: Self::Model, b: Self::Model) -> Self::Model;

    /// An owned copy holding exactly the value of `self`.
    fn twin(&self) -> (r: Self)
        ensures
            r.model() == self.model(),
    ;

    /// Adds `rhs` into `self` in place; `rhs` is left unchanged.
    fn plus_equals(&mut self, rhs: &Self)
        requires
            Self::plus_ok(old(self).model(), rhs.model()),
        ensures
            final(self).model() == Self::plus_fn(old(self).model(), rhs.model()),
    ;

    /// Law: addition is commutative.
    proof fn lemma_plus_commutes(a: Self::Model, b: Self::Model)
        requires
            Self::model_ok(a),
            Self::model_ok(b),
        ensures
            Self::plus_fn(a, b) == Self::plus_fn(b, a),
    ;

    /// Law: addition is associative.
    proof fn lemma_plus_associates(a: Self::Model, b: Self::Model, c: Self::Model)
        requires
            Self::model_ok(a),
            Self::model_ok(b),
            Self::model_ok(c),
        ensures
            Self::plus_fn(Self::plus_fn(a, b), c) == Self::plus_fn(a, Self::plus_fn(b, c)),
    ;
}

/// A semigroup with an explicit zero element.
///
/// Implementations owe proofs that the constructed zero tests as zero, and
/// that adding it to any value is always defined and changes nothing.
pub trait Monoid: Semigroup {
    /// The model of the zero element.
    spec fn zero_model() -> Self::Model;

    /// A zero element under the semigroup addition operator.
    fn zero() -> (z: Self)
        ensures
            z.model() == Self::zero_model(),
    ;

    /// Law: the zero element tests as zero.
    proof fn lemma_zero_is_zero()
        ensures
            Self::model_is_zero(Self::zero_model()),
    ;

    /// Law: adding the zero element is always defined and changes nothing.
    proof fn lemma_plus_zero(a: Self::Model)
        requires
            Self::model_ok(a),
        ensures
            Self::plus_ok(a, Self::zero_model()),
            Self::plus_fn(a, Self::zero_model()) == a,
    ;
}

/// A monoid with in-place negation, enabling retraction of prior updates.
///
/// Implementations owe a proof that a value added to its own negation yields
/// a value that tests as zero.
pub trait Abelian: Monoid {
    /// When the executable negation is defined (for fixed-width integers:
    /// everywhere except the minimum value, whose negation is not
    /// representable).
    spec fn negate_ok(a: Self::Model) -> bool;

    /// The meaning of negation, on models.
    spec fn negate_fn(a: Self::Model) -> Self::Model;

    /// Negates `self` in place.
    fn negate(&mut self)
        requires
            Self::negate_ok(old(self).model()),
        ensures
            final(self).model() == Self::negate_fn(old(self).model()),
    ;

    /// Law: adding a negation to the value it negates is defined and yields
    /// a value that tests as zero.
    proof fn lemma_negate_cancels(a: Self::Model)
        requires
            Self::model_ok(a),
        ensures
            Self::plus_ok(Self::negate_fn(a), a),
            Self::model_is_zero(Self::plus_fn(Self::negate_fn(a), a)),
    ;
}

/// A scalar-like combination of a difference with a value of a possibly
/// different type, producing an owned output of a third type.
///
/// Used when a difference is applied to a data value, for example scaling an
/// output record by an incoming delta's multiplicity. Independent of the
/// other capabilities; not required to be commutative or to have an identity.
/// The second operand is only borrowed and is never mutated.
pub trait Multiply<Rhs = Self>: Sized {
    /// Output type of the combination.
    type Output;

    /// When the combination is defined (for fixed-width integers: when the
    /// mathematical product stays representable).
    spec fn multiply_ok(a: Self, b: Rhs) -> bool;

    /// The meaning of the combination: `c` is `a` combined with `b`.
    spec fn multiply_rel(a: Self, b: Rhs, c: Self::Output) -> bool;

    /// Combines `self` with `rhs`, consuming `self`.
    fn multiply(self, rhs: &Rhs) -> (r: Self::Output)
        requires
            Self::multiply_ok(self, *rhs),
        ensures
            Self::multiply_rel(self, *rhs, r),
    ;
}

} // verus!
