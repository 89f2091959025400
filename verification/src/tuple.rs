//! Componentwise capability lifting across fixed-arity tuples.
//!
//! A tuple of difference types is itself a difference type: the zero test is
//! the conjunction of the components' tests, addition, zero and negation act
//! on each component independently, and scalar combination applies the same
//! right-hand value to every component. Arities zero through four are
//! provided, matching the demonstrated need; larger arities are unsupported
//! by design.

use vstd::prelude::*;

use crate::Abelian;
use crate::IsZero;
use crate::Monoid;
use crate::Multiply;
use crate::Semigroup;

verus! {

impl IsZero for () {
    type Model = ();

    open spec fn model(&self) -> () {
        ()
    }

    open spec fn model_ok(m: ()) -> bool {
        true
    }

    open spec fn model_is_zero(m: ()) -> bool {
        true
    }

    proof fn lemma_model_ok(v: ()) {
    }

    fn is_zero(&self) -> (r: bool) {
        true
    }
}

impl Semigroup for () {
    open spec fn plus_ok(a: (), b: ()) -> bool {
        true
    }

    open spec fn plus_fn(a: (), b: ()) -> () {
        ()
    }

    fn twin(&self) -> (r: ()) {
        ()
    }

    fn plus_equals(&mut self, rhs: &()) {
    }

    proof fn lemma_plus_commutes(a: (), b: ()) {
    }

    proof fn lemma_plus_associates(a: (), b: (), c: ()) {
    }
}

impl Monoid for () {
    open spec fn zero_model() -> () {
        ()
    }

    fn zero() -> (z: ()) {
        ()
    }

    proof fn lemma_zero_is_zero() {
    }

    proof fn lemma_plus_zero(a: ()) {
    }
}

impl Abelian for () {
    open spec fn negate_ok(a: ()) -> bool {
        true
    }

    open spec fn negate_fn(a: ()) -> () {
        ()
    }

    fn negate(&mut self) {
    }

    proof fn lemma_negate_cancels(a: ()) {
    }
}

impl<T> Multiply<T> for () {
    type Output = ();

    open spec fn multiply_ok(a: (), b: T) -> bool {
        true
    }

    open spec fn multiply_rel(a: (), b: T, c: ()) -> bool {
        true
    }

    fn multiply(self, rhs: &T) -> (r: ()) {
        ()
    }
}

impl<A: IsZero> IsZero for (A,) {
    type Model = (A::Model,);

    open spec fn model(&self) -> (A::Model,) {
        (self.0.model(),)
    }

    open spec fn model_ok(m: (A::Model,)) -> bool {
        A::model_ok(m.0)
    }

    open spec fn model_is_zero(m: (A::Model,)) -> bool {
        A::model_is_zero(m.0)
    }

    proof fn lemma_model_ok(v: (A,)) {
        A::lemma_model_ok(v.0);
    }

    fn is_zero(&self) -> (r: bool) {
        self.0.is_zero()
    }
}

impl<A: Semigroup> Semigroup for (A,) {
    open spec fn plus_ok(a: (A::Model,), b: (A::Model,)) -> bool {
        A::plus_ok(a.0, b.0)
    }

    open spec fn plus_fn(a: (A::Model,), b: (A::Model,)) -> (A::Model,) {
        (A::plus_fn(a.0, b.0),)
    }

    fn twin(&self) -> (r: (A,)) {
        (self.0.twin(),)
    }

    fn plus_equals(&mut self, rhs: &(A,)) {
        self.0.plus_equals(&rhs.0);
    }

    proof fn lemma_plus_commutes(a: (A::Model,), b: (A::Model,)) {
        A::lemma_plus_commutes(a.0, b.0);
    }

    proof fn lemma_plus_associates(
        a: (A::Model,),
        b: (A::Model,),
        c: (A::Model,),
    ) {
        A::lemma_plus_associates(a.0, b.0, c.0);
    }
}

impl<A: Monoid> Monoid for (A,) {
    open spec fn zero_model() -> (A::Model,) {
        (A::zero_model(),)
    }

    fn zero() -> (z: (A,)) {
        (A::zero(),)
    }

    proof fn lemma_zero_is_zero() {
        A::lemma_zero_is_zero();
    }

    proof fn lemma_plus_zero(a: (A::Model,)) {
        A::lemma_plus_zero(a.0);
    }
}

impl<A: Abelian> Abelian for (A,) {
    open spec fn negate_ok(a: (A::Model,)) -> bool {
        A::negate_ok(a.0)
    }

    open spec fn negate_fn(a: (A::Model,)) -> (A::Model,) {
        (A::negate_fn(a.0),)
    }

    fn negate(&mut self) {
        self.0.negate();
    }

    proof fn lemma_negate_cancels(a: (A::Model,)) {
        A::lemma_negate_cancels(a.0);
    }
}

impl<T, A: Multiply<T>> Multiply<T> for (A,) {
    type Output = (<A as Multiply<T>>::Output,);

    open spec fn multiply_ok(a: (A,), b: T) -> bool {
        A::multiply_ok(a.0, b)
    }

    open spec fn multiply_rel(
        a: (A,),
        b: T,
        c: (<A as Multiply<T>>::Output,),
    ) -> bool {
        A::multiply_rel(a.0, b, c.0)
    }

    fn multiply(self, rhs: &T) -> (r: (<A as Multiply<T>>::Output,)) {
        let (a,) = self;
        (a.multiply(rhs),)
    }
}

impl<A: IsZero, B: IsZero> IsZero for (A, B) {
    type Model = (A::Model, B::Model);

    open spec fn model(&self) -> (A::Model, B::Model) {
        (self.0.model(), self.1.model())
    }

    open spec fn model_ok(m: (A::Model, B::Model)) -> bool {
        A::model_ok(m.0) && B::model_ok(m.1)
    }

    open spec fn model_is_zero(m: (A::Model, B::Model)) -> bool {
        A::model_is_zero(m.0) && B::model_is_zero(m.1)
    }

    proof fn lemma_model_ok(v: (A, B)) {
        A::lemma_model_ok(v.0);
        B::lemma_model_ok(v.1);
    }

    fn is_zero(&self) -> (r: bool) {
        self.0.is_zero() && self.1.is_zero()
    }
}

impl<A: Semigroup, B: Semigroup> Semigroup for (A, B) {
    open spec fn plus_ok(a: (A::Model, B::Model), b: (A::Model, B::Model)) -> bool {
        A::plus_ok(a.0, b.0) && B::plus_ok(a.1, b.1)
    }

    open spec fn plus_fn(a: (A::Model, B::Model), b: (A::Model, B::Model)) -> (
        A::Model,
        B::Model,
    ) {
        (A::plus_fn(a.0, b.0), B::plus_fn(a.1, b.1))
    }

    fn twin(&self) -> (r: (A, B)) {
        (self.0.twin(), self.1.twin())
    }

    fn plus_equals(&mut self, rhs: &(A, B)) {
        self.0.plus_equals(&rhs.0);
        self.1.plus_equals(&rhs.1);
    }

    proof fn lemma_plus_commutes(a: (A::Model, B::Model), b: (A::Model, B::Model)) {
        A::lemma_plus_commutes(a.0, b.0);
        B::lemma_plus_commutes(a.1, b.1);
    }

    proof fn lemma_plus_associates(
        a: (A::Model, B::Model),
        b: (A::Model, B::Model),
        c: (A::Model, B::Model),
    ) {
        A::lemma_plus_associates(a.0, b.0, c.0);
        B::lemma_plus_associates(a.1, b.1, c.1);
    }
}

impl<A: Monoid, B: Monoid> Monoid for (A, B) {
    open spec fn zero_model() -> (A::Model, B::Model) {
        (A::zero_model(), B::zero_model())
    }

    fn zero() -> (z: (A, B)) {
        (A::zero(), B::zero())
    }

    proof fn lemma_zero_is_zero() {
        A::lemma_zero_is_zero();
        B::lemma_zero_is_zero();
    }

    proof fn lemma_plus_zero(a: (A::Model, B::Model)) {
        A::lemma_plus_zero(a.0);
        B::lemma_plus_zero(a.1);
    }
}

impl<A: Abelian, B: Abelian> Abelian for (A, B) {
    open spec fn negate_ok(a: (A::Model, B::Model)) -> bool {
        A::negate_ok(a.0) && B::negate_ok(a.1)
    }

    open spec fn negate_fn(a: (A::Model, B::Model)) -> (A::Model, B::Model) {
        (A::negate_fn(a.0), B::negate_fn(a.1))
    }

    fn negate(&mut self) {
        self.0.negate();
        self.1.negate();
    }

    proof fn lemma_negate_cancels(a: (A::Model, B::Model)) {
        A::lemma_negate_cancels(a.0);
        B::lemma_negate_cancels(a.1);
    }
}

impl<T, A: Multiply<T>, B: Multiply<T>> Multiply<T> for (A, B) {
    type Output = (<A as Multiply<T>>::Output, <B as Multiply<T>>::Output);

    open spec fn multiply_ok(a: (A, B), b: T) -> bool {
        A::multiply_ok(a.0, b) && B::multiply_ok(a.1, b)
    }

    open spec fn multiply_rel(
        a: (A, B),
        b: T,
        c: (<A as Multiply<T>>::Output, <B as Multiply<T>>::Output),
    ) -> bool {
        A::multiply_rel(a.0, b, c.0) && B::multiply_rel(a.1, b, c.1)
    }

    fn multiply(self, rhs: &T) -> (r: (<A as Multiply<T>>::Output, <B as Multiply<T>>::Output)) {
        let (a, b) = self;
        (a.multiply(rhs), b.multiply(rhs))
    }
}

impl<A: IsZero, B: IsZero, C: IsZero> IsZero for (A, B, C) {
    type Model = (A::Model, B::Model, C::Model);

    open spec fn model(&self) -> (A::Model, B::Model, C::Model) {
        (self.0.model(), self.1.model(), self.2.model())
    }

    open spec fn model_ok(m: (A::Model, B::Model, C::Model)) -> bool {
        A::model_ok(m.0) && B::model_ok(m.1) && C::model_ok(m.2)
    }

    open spec fn model_is_zero(m: (A::Model, B::Model, C::Model)) -> bool {
        A::model_is_zero(m.0) && B::model_is_zero(m.1) && C::model_is_zero(m.2)
    }

    proof fn lemma_model_ok(v: (A, B, C)) {
        A::lemma_model_ok(v.0);
        B::lemma_model_ok(v.1);
        C::lemma_model_ok(v.2);
    }

    fn is_zero(&self) -> (r: bool) {
        self.0.is_zero() && self.1.is_zero() && self.2.is_zero()
    }
}

impl<A: Semigroup, B: Semigroup, C: Semigroup> Semigroup for (A, B, C) {
    open spec fn plus_ok(a: (A::Model, B::Model, C::Model), b: (A::Model, B::Model, C::Model)) -> bool {
        A::plus_ok(a.0, b.0) && B::plus_ok(a.1, b.1) && C::plus_ok(a.2, b.2)
    }

    open spec fn plus_fn(a: (A::Model, B::Model, C::Model), b: (A::Model, B::Model, C::Model)) -> (A::Model, B::Model, C::Model) {
        (A::plus_fn(a.0, b.0), B::plus_fn(a.1, b.1), C::plus_fn(a.2, b.2))
    }

    fn twin(&self) -> (r: (A, B, C)) {
        (self.0.twin(), self.1.twin(), self.2.twin())
    }

    fn plus_equals(&mut self, rhs: &(A, B, C)) {
        self.0.plus_equals(&rhs.0);
        self.1.plus_equals(&rhs.1);
        self.2.plus_equals(&rhs.2);
    }

    proof fn lemma_plus_commutes(a: (A::Model, B::Model, C::Model), b: (A::Model, B::Model, C::Model)) {
        A::lemma_plus_commutes(a.0, b.0);
        B::lemma_plus_commutes(a.1, b.1);
        C::lemma_plus_commutes(a.2, b.2);
    }

    proof fn lemma_plus_associates(
        a: (A::Model, B::Model, C::Model),
        b: (A::Model, B::Model, C::Model),
        c: (A::Model, B::Model, C::Model),
    ) {
        A::lemma_plus_associates(a.0, b.0, c.0);
        B::lemma_plus_associates(a.1, b.1, c.1);
        C::lemma_plus_associates(a.2, b.2, c.2);
    }
}

impl<A: Monoid, B: Monoid, C: Monoid> Monoid for (A, B, C) {
    open spec fn zero_model() -> (A::Model, B::Model, C::Model) {
        (A::zero_model(), B::zero_model(), C::zero_model())
    }

    fn zero() -> (z: (A, B, C)) {
        (A::zero(), B::zero(), C::zero())
    }

    proof fn lemma_zero_is_zero() {
        A::lemma_zero_is_zero();
        B::lemma_zero_is_zero();
        C::lemma_zero_is_zero();
    }

    proof fn lemma_plus_zero(a: (A::Model, B::Model, C::Model)) {
        A::lemma_plus_zero(a.0);
        B::lemma_plus_zero(a.1);
        C::lemma_plus_zero(a.2);
    }
}

impl<A: Abelian, B: Abelian, C: Abelian> Abelian for (A, B, C) {
    open spec fn negate_ok(a: (A::Model, B::Model, C::Model)) -> bool {
        A::negate_ok(a.0) && B::negate_ok(a.1) && C::negate_ok(a.2)
    }

    open spec fn negate_fn(a: (A::Model, B::Model, C::Model)) -> (A::Model, B::Model, C::Model) {
        (A::negate_fn(a.0), B::negate_fn(a.1), C::negate_fn(a.2))
    }

    fn negate(&mut self) {
        self.0.negate();
        self.1.negate();
        self.2.negate();
    }

    proof fn lemma_negate_cancels(a: (A::Model, B::Model, C::Model)) {
        A::lemma_negate_cancels(a.0);
        B::lemma_negate_cancels(a.1);
        C::lemma_negate_cancels(a.2);
    }
}

impl<T, A: Multiply<T>, B: Multiply<T>, C: Multiply<T>> Multiply<T> for (A, B, C) {
    type Output = (<A as Multiply<T>>::Output, <B as Multiply<T>>::Output, <C as Multiply<T>>::Output);

    open spec fn multiply_ok(a: (A, B, C), b: T) -> bool {
        A::multiply_ok(a.0, b) && B::multiply_ok(a.1, b) && C::multiply_ok(a.2, b)
    }

    open spec fn multiply_rel(
        a: (A, B, C),
        b: T,
        c: (<A as Multiply<T>>::Output, <B as Multiply<T>>::Output, <C as Multiply<T>>::Output),
    ) -> bool {
        A::multiply_rel(a.0, b, c.0) && B::multiply_rel(a.1, b, c.1) && C::multiply_rel(a.2, b, c.2)
    }

    fn multiply(self, rhs: &T) -> (r: (<A as Multiply<T>>::Output, <B as Multiply<T>>::Output, <C as Multiply<T>>::Output)) {
        let (a, b, c) = self;
        (a.multiply(rhs), b.multiply(rhs), c.multiply(rhs))
    }
}

impl<A: IsZero, B: IsZero, C: IsZero, D: IsZero> IsZero for (A, B, C, D) {
    type Model = (A::Model, B::Model, C::Model, D::Model);

    open spec fn model(&self) -> (A::Model, B::Model, C::Model, D::Model) {
        (self.0.model(), self.1.model(), self.2.model(), self.3.model())
    }

    open spec fn model_ok(m: (A::Model, B::Model, C::Model, D::Model)) -> bool {
        A::model_ok(m.0) && B::model_ok(m.1) && C::model_ok(m.2) && D::model_ok(m.3)
    }

    open spec fn model_is_zero(m: (A::Model, B::Model, C::Model, D::Model)) -> bool {
        A::model_is_zero(m.0) && B::model_is_zero(m.1) && C::model_is_zero(m.2) && D::model_is_zero(m.3)
    }

    proof fn lemma_model_ok(v: (A, B, C, D)) {
        A::lemma_model_ok(v.0);
        B::lemma_model_ok(v.1);
        C::lemma_model_ok(v.2);
        D::lemma_model_ok(v.3);
    }

    fn is_zero(&self) -> (r: bool) {
        self.0.is_zero() && self.1.is_zero() && self.2.is_zero() && self.3.is_zero()
    }
}

impl<A: Semigroup, B: Semigroup, C: Semigroup, D: Semigroup> Semigroup for (A, B, C, D) {
    open spec fn plus_ok(a: (A::Model, B::Model, C::Model, D::Model), b: (A::Model, B::Model, C::Model, D::Model)) -> bool {
        A::plus_ok(a.0, b.0) && B::plus_ok(a.1, b.1) && C::plus_ok(a.2, b.2) && D::plus_ok(a.3, b.3)
    }

    open spec fn plus_fn(a: (A::Model, B::Model, C::Model, D::Model), b: (A::Model, B::Model, C::Model, D::Model)) -> (A::Model, B::Model, C::Model, D::Model) {
        (A::plus_fn(a.0, b.0), B::plus_fn(a.1, b.1), C::plus_fn(a.2, b.2), D::plus_fn(a.3, b.3))
    }

    fn twin(&self) -> (r: (A, B, C, D)) {
        (self.0.twin(), self.1.twin(), self.2.twin(), self.3.twin())
    }

    fn plus_equals(&mut self, rhs: &(A, B, C, D)) {
        self.0.plus_equals(&rhs.0);
        self.1.plus_equals(&rhs.1);
        self.2.plus_equals(&rhs.2);
        self.3.plus_equals(&rhs.3);
    }

    proof fn lemma_plus_commutes(a: (A::Model, B::Model, C::Model, D::Model), b: (A::Model, B::Model, C::Model, D::Model)) {
        A::lemma_plus_commutes(a.0, b.0);
        B::lemma_plus_commutes(a.1, b.1);
        C::lemma_plus_commutes(a.2, b.2);
        D::lemma_plus_commutes(a.3, b.3);
    }

    proof fn lemma_plus_associates(
        a: (A::Model, B::Model, C::Model, D::Model),
        b: (A::Model, B::Model, C::Model, D::Model),
        c: (A::Model, B::Model, C::Model, D::Model),
    ) {
        A::lemma_plus_associates(a.0, b.0, c.0);
        B::lemma_plus_associates(a.1, b.1, c.1);
        C::lemma_plus_associates(a.2, b.2, c.2);
        D::lemma_plus_associates(a.3, b.3, c.3);
    }
}

impl<A: Monoid, B: Monoid, C: Monoid, D: Monoid> Monoid for (A, B, C, D) {
    open spec fn zero_model() -> (A::Model, B::Model, C::Model, D::Model) {
        (A::zero_model(), B::zero_model(), C::zero_model(), D::zero_model())
    }

    fn zero() -> (z: (A, B, C, D)) {
        (A::zero(), B::zero(), C::zero(), D::zero())
    }

    proof fn lemma_zero_is_zero() {
        A::lemma_zero_is_zero();
        B::lemma_zero_is_zero();
        C::lemma_zero_is_zero();
        D::lemma_zero_is_zero();
    }

    proof fn lemma_plus_zero(a: (A::Model, B::Model, C::Model, D::Model)) {
        A::lemma_plus_zero(a.0);
        B::lemma_plus_zero(a.1);
        C::lemma_plus_zero(a.2);
        D::lemma_plus_zero(a.3);
    }
}

impl<A: Abelian, B: Abelian, C: Abelian, D: Abelian> Abelian for (A, B, C, D) {
    open spec fn negate_ok(a: (A::Model, B::Model, C::Model, D::Model)) -> bool {
        A::negate_ok(a.0) && B::negate_ok(a.1) && C::negate_ok(a.2) && D::negate_ok(a.3)
    }

    open spec fn negate_fn(a: (A::Model, B::Model, C::Model, D::Model)) -> (A::Model, B::Model, C::Model, D::Model) {
        (A::negate_fn(a.0), B::negate_fn(a.1), C::negate_fn(a.2), D::negate_fn(a.3))
    }

    fn negate(&mut self) {
        self.0.negate();
        self.1.negate();
        self.2.negate();
        self.3.negate();
    }

    proof fn lemma_negate_cancels(a: (A::Model, B::Model, C::Model, D::Model)) {
        A::lemma_negate_cancels(a.0);
        B::lemma_negate_cancels(a.1);
        C::lemma_negate_cancels(a.2);
        D::lemma_negate_cancels(a.3);
    }
}

impl<T, A: Multiply<T>, B: Multiply<T>, C: Multiply<T>, D: Multiply<T>> Multiply<T> for (A, B, C, D) {
    type Output = (<A as Multiply<T>>::Output, <B as Multiply<T>>::Output, <C as Multiply<T>>::Output, <D as Multiply<T>>::Output);

    open spec fn multiply_ok(a: (A, B, C, D), b: T) -> bool {
        A::multiply_ok(a.0, b) && B::multiply_ok(a.1, b) && C::multiply_ok(a.2, b) && D::multiply_ok(a.3, b)
    }

    open spec fn multiply_rel(
        a: (A, B, C, D),
        b: T,
        c: (<A as Multiply<T>>::Output, <B as Multiply<T>>::Output, <C as Multiply<T>>::Output, <D as Multiply<T>>::Output),
    ) -> bool {
        A::multiply_rel(a.0, b, c.0) && B::multiply_rel(a.1, b, c.1) && C::multiply_rel(a.2, b, c.2) && D::multiply_rel(a.3, b, c.3)
    }

    fn multiply(self, rhs: &T) -> (r: (<A as Multiply<T>>::Output, <B as Multiply<T>>::Output, <C as Multiply<T>>::Output, <D as Multiply<T>>::Output)) {
        let (a, b, c, d) = self;
        (a.multiply(rhs), b.multiply(rhs), c.multiply(rhs), d.multiply(rhs))
    }
}

} // verus!
