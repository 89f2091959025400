//! Capability implementations for variable-length sequences of differences.
//!
//! A `Vec` of a difference type is itself a difference type, elementwise,
//! with a deliberate ragged-extension policy for addition: operands of
//! unequal length are reconciled by treating the missing trailing elements
//! of the shorter operand as implicit zeros, so the result has the length of
//! the longer operand and the extra right-hand elements are copied in
//! unchanged. A truncating or length-rejecting policy would silently change
//! accumulation semantics for callers that rely on implicit trailing zeros.

use vstd::prelude::*;

use crate::Abelian;
use crate::IsZero;
use crate::Monoid;
use crate::Multiply;
use crate::Semigroup;

verus! {

/// The model of a sequence of differences: the sequence of their models.
pub open spec fn seq_model<R: IsZero>(s: Seq<R>) -> Seq<R::Model> {
    s.map_values(|x: R| x.model())
}

/// Elementwise addition is defined up to the shorter of the two operands.
pub open spec fn seq_plus_ok<R: Semigroup>(a: Seq<R::Model>, b: Seq<R::Model>) -> bool {
    forall|i: int| 0 <= i < a.len() && i < b.len() ==> #[trigger] R::plus_ok(a[i], b[i])
}

/// The ragged elementwise sum of `a` and `b`: as long as the longer operand,
/// elementwise sums where both operands have an element, and the longer
/// operand's element unchanged where only one does.
pub open spec fn seq_plus_fn<R: Semigroup>(a: Seq<R::Model>, b: Seq<R::Model>) -> Seq<R::Model> {
    Seq::new(
        if a.len() >= b.len() {
            a.len()
        } else {
            b.len()
        },
        |i: int|
            if 0 <= i < a.len() && i < b.len() {
                R::plus_fn(a[i], b[i])
            } else if 0 <= i < a.len() {
                a[i]
            } else {
                b[i]
            },
    )
}

/// Adds a borrowed slice of differences into a vector of differences in
/// place, under the ragged-extension policy: for each index the two operands
/// share, the right-hand element is added into the left-hand element; then,
/// while the vector remains shorter than the slice, the next unmatched
/// right-hand element is copied and appended.
pub fn plus_equals_slice<R: Semigroup>(lhs: &mut Vec<R>, rhs: &[R])
    requires
        seq_plus_ok::<R>(seq_model(old(lhs)@), seq_model(rhs@)),
    ensures
        seq_model(final(lhs)@) == seq_plus_fn::<R>(seq_model(old(lhs)@), seq_model(rhs@)),
{
    let common: usize = if lhs.len() < rhs.len() {
        lhs.len()
    } else {
        rhs.len()
    };
    let mut i: usize = 0;
    while i < common
        invariant
            i <= common,
            common == if old(lhs)@.len() < rhs@.len() {
                old(lhs)@.len()
            } else {
                rhs@.len()
            },
            lhs@.len() == old(lhs)@.len(),
            seq_plus_ok::<R>(seq_model(old(lhs)@), seq_model(rhs@)),
            forall|j: int|
                0 <= j < i ==> (#[trigger] lhs@[j]).model() == R::plus_fn(
                    old(lhs)@[j].model(),
                    rhs@[j].model(),
                ),
            forall|j: int| i <= j < lhs@.len() ==> lhs@[j] == old(lhs)@[j],
        decreases common - i,
    {
        proof {
            assert(seq_model(old(lhs)@)[i as int] == old(lhs)@[i as int].model());
            assert(seq_model(rhs@)[i as int] == rhs@[i as int].model());
            assert(R::plus_ok(old(lhs)@[i as int].model(), rhs@[i as int].model()));
        }
        lhs[i].plus_equals(&rhs[i]);
        i = i + 1;
    }
    while lhs.len() < rhs.len()
        invariant
            old(lhs)@.len() <= lhs@.len(),
            lhs@.len() <= if old(lhs)@.len() >= rhs@.len() {
                old(lhs)@.len()
            } else {
                rhs@.len()
            },
            forall|j: int|
                0 <= j < old(lhs)@.len() && j < rhs@.len() ==> (#[trigger] lhs@[j]).model()
                    == R::plus_fn(old(lhs)@[j].model(), rhs@[j].model()),
            forall|j: int| rhs@.len() <= j < old(lhs)@.len() ==> lhs@[j] == old(lhs)@[j],
            forall|j: int|
                old(lhs)@.len() <= j < lhs@.len() ==> (#[trigger] lhs@[j]).model()
                    == rhs@[j].model(),
        decreases rhs@.len() - lhs@.len(),
    {
        let e = rhs[lhs.len()].twin();
        lhs.push(e);
    }
    proof {
        let ma = seq_model(old(lhs)@);
        let mb = seq_model(rhs@);
        let res = seq_plus_fn::<R>(ma, mb);
        assert forall|j: int| 0 <= j < seq_model(lhs@).len() implies seq_model(lhs@)[j]
            == res[j] by {
            assert(seq_model(lhs@)[j] == lhs@[j].model());
            assert(0 <= j < ma.len() ==> ma[j] == old(lhs)@[j].model());
            assert(0 <= j < mb.len() ==> mb[j] == rhs@[j].model());
        }
        assert(seq_model(lhs@) =~= res);
    }
}

impl<R: IsZero> IsZero for Vec<R> {
    type Model = Seq<R::Model>;

    open spec fn model(&self) -> Seq<R::Model> {
        seq_model(self@)
    }

    open spec fn model_ok(m: Seq<R::Model>) -> bool {
        forall|i: int| 0 <= i < m.len() ==> #[trigger] R::model_ok(m[i])
    }

    open spec fn model_is_zero(m: Seq<R::Model>) -> bool {
        forall|i: int| 0 <= i < m.len() ==> #[trigger] R::model_is_zero(m[i])
    }

    proof fn lemma_model_ok(v: Vec<R>) {
        assert forall|i: int| 0 <= i < seq_model(v@).len() implies #[trigger] R::model_ok(
            seq_model(v@)[i],
        ) by {
            R::lemma_model_ok(v@[i]);
            assert(seq_model(v@)[i] == v@[i].model());
        }
    }

    fn is_zero(&self) -> (r: bool) {
        let mut i: usize = 0;
        while i < self.len()
            invariant
                i <= self@.len(),
                forall|j: int| 0 <= j < i ==> #[trigger] R::model_is_zero(self@[j].model()),
            decreases self@.len() - i,
        {
            if !self[i].is_zero() {
                proof {
                    assert(seq_model(self@)[i as int] == self@[i as int].model());
                }
                return false;
            }
            i = i + 1;
        }
        proof {
            assert forall|j: int| 0 <= j < seq_model(self@).len() implies #[trigger] R::model_is_zero(
                seq_model(self@)[j],
            ) by {
                assert(seq_model(self@)[j] == self@[j].model());
            }
        }
        true
    }
}

impl<R: Semigroup> Semigroup for Vec<R> {
    open spec fn plus_ok(a: Seq<R::Model>, b: Seq<R::Model>) -> bool {
        seq_plus_ok::<R>(a, b)
    }

    open spec fn plus_fn(a: Seq<R::Model>, b: Seq<R::Model>) -> Seq<R::Model> {
        seq_plus_fn::<R>(a, b)
    }

    fn twin(&self) -> (r: Vec<R>) {
        let mut out: Vec<R> = Vec::new();
        let mut i: usize = 0;
        while i < self.len()
            invariant
                i <= self@.len(),
                out@.len() == i,
                forall|j: int| 0 <= j < i ==> (#[trigger] out@[j]).model() == self@[j].model(),
            decreases self@.len() - i,
        {
            let e = self[i].twin();
            out.push(e);
            i = i + 1;
        }
        proof {
            assert forall|j: int| 0 <= j < seq_model(out@).len() implies seq_model(out@)[j]
                == seq_model(self@)[j] by {
                assert(seq_model(out@)[j] == out@[j].model());
                assert(seq_model(self@)[j] == self@[j].model());
            }
            assert(seq_model(out@) =~= seq_model(self@));
        }
        out
    }

    fn plus_equals(&mut self, rhs: &Vec<R>) {
        plus_equals_slice(self, rhs.as_slice());
    }

    proof fn lemma_plus_commutes(a: Seq<R::Model>, b: Seq<R::Model>) {
        let ab = seq_plus_fn::<R>(a, b);
        let ba = seq_plus_fn::<R>(b, a);
        assert forall|i: int| 0 <= i < ab.len() implies ab[i] == ba[i] by {
            if 0 <= i < a.len() && i < b.len() {
                R::lemma_plus_commutes(a[i], b[i]);
            }
        }
        assert(ab =~= ba);
    }

    proof fn lemma_plus_associates(a: Seq<R::Model>, b: Seq<R::Model>, c: Seq<R::Model>) {
        let ab = seq_plus_fn::<R>(a, b);
        let ab_c = seq_plus_fn::<R>(ab, c);
        let bc = seq_plus_fn::<R>(b, c);
        let a_bc = seq_plus_fn::<R>(a, bc);
        assert forall|i: int| 0 <= i < ab_c.len() implies ab_c[i] == a_bc[i] by {
            if 0 <= i < a.len() && i < b.len() && i < c.len() {
                R::lemma_plus_associates(a[i], b[i], c[i]);
            }
        }
        assert(ab_c =~= a_bc);
    }
}

impl<R: Monoid> Monoid for Vec<R> {
    open spec fn zero_model() -> Seq<R::Model> {
        Seq::empty()
    }

    fn zero() -> (z: Vec<R>) {
        let z: Vec<R> = Vec::new();
        proof {
            assert(seq_model(z@) =~= Seq::<R::Model>::empty());
        }
        z
    }

    proof fn lemma_zero_is_zero() {
    }

    proof fn lemma_plus_zero(a: Seq<R::Model>) {
        assert(seq_plus_fn::<R>(a, Seq::<R::Model>::empty()) =~= a);
    }
}

impl<R: Abelian> Abelian for Vec<R> {
    open spec fn negate_ok(a: Seq<R::Model>) -> bool {
        forall|i: int| 0 <= i < a.len() ==> #[trigger] R::negate_ok(a[i])
    }

    open spec fn negate_fn(a: Seq<R::Model>) -> Seq<R::Model> {
        Seq::new(a.len(), |i: int| R::negate_fn(a[i]))
    }

    fn negate(&mut self) {
        let mut i: usize = 0;
        while i < self.len()
            invariant
                i <= self@.len(),
                self@.len() == old(self)@.len(),
                Self::negate_ok(seq_model(old(self)@)),
                forall|j: int|
                    0 <= j < i ==> (#[trigger] self@[j]).model() == R::negate_fn(
                        old(self)@[j].model(),
                    ),
                forall|j: int| i <= j < self@.len() ==> self@[j] == old(self)@[j],
            decreases self@.len() - i,
        {
            proof {
                assert(seq_model(old(self)@)[i as int] == old(self)@[i as int].model());
                assert(R::negate_ok(old(self)@[i as int].model()));
            }
            self[i].negate();
            i = i + 1;
        }
        proof {
            let ma = seq_model(old(self)@);
            assert forall|j: int| 0 <= j < seq_model(self@).len() implies seq_model(self@)[j]
                == Self::negate_fn(ma)[j] by {
                assert(seq_model(self@)[j] == self@[j].model());
                assert(ma[j] == old(self)@[j].model());
            }
            assert(seq_model(self@) =~= Self::negate_fn(ma));
        }
    }

    proof fn lemma_negate_cancels(a: Seq<R::Model>) {
        let n = Self::negate_fn(a);
        assert forall|i: int| 0 <= i < n.len() && i < a.len() implies #[trigger] R::plus_ok(
            n[i],
            a[i],
        ) by {
            R::lemma_negate_cancels(a[i]);
        }
        let s = seq_plus_fn::<R>(n, a);
        assert forall|i: int| 0 <= i < s.len() implies #[trigger] R::model_is_zero(s[i]) by {
            R::lemma_negate_cancels(a[i]);
        }
    }
}

impl<T, R: Multiply<T>> Multiply<T> for Vec<R> {
    type Output = Vec<<R as Multiply<T>>::Output>;

    open spec fn multiply_ok(a: Vec<R>, b: T) -> bool {
        forall|i: int| 0 <= i < a@.len() ==> #[trigger] R::multiply_ok(a@[i], b)
    }

    open spec fn multiply_rel(a: Vec<R>, b: T, c: Vec<<R as Multiply<T>>::Output>) -> bool {
        &&& c@.len() == a@.len()
        &&& forall|i: int| 0 <= i < a@.len() ==> #[trigger] R::multiply_rel(a@[i], b, c@[i])
    }

    fn multiply(self, rhs: &T) -> (r: Vec<<R as Multiply<T>>::Output>) {
        let ghost orig: Seq<R> = self@;
        let mut v = self;
        let mut out: Vec<<R as Multiply<T>>::Output> = Vec::new();
        while v.len() > 0
            invariant
                out@.len() + v@.len() == orig.len(),
                v@ == orig.subrange(out@.len() as int, orig.len() as int),
                forall|i: int| 0 <= i < orig.len() ==> #[trigger] R::multiply_ok(orig[i], *rhs),
                forall|i: int|
                    0 <= i < out@.len() ==> #[trigger] R::multiply_rel(orig[i], *rhs, out@[i]),
            decreases v@.len(),
        {
            let x = v.remove(0);
            proof {
                assert(x == orig[out@.len() as int]);
            }
            let y = x.multiply(rhs);
            out.push(y);
            proof {
                assert(v@ =~= orig.subrange(out@.len() as int, orig.len() as int));
            }
        }
        out
    }
}

} // verus!
