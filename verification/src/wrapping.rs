//! Wrapping-integer difference types, one per signed width.
//!
//! These carry the same capability set as the plain signed integers, but
//! addition, negation and multiplication wrap modulo the width instead of
//! being restricted to representable results. They are meant for
//! long-running counters where overflow is expected and must not abort the
//! computation. Their model is the stored machine integer itself, and the
//! meaning of each operation is the wrapping arithmetic of the width.

use vstd::prelude::*;
use vstd::wrapping::i128_specs;
use vstd::wrapping::i16_specs;
use vstd::wrapping::i32_specs;
use vstd::wrapping::i64_specs;
use vstd::wrapping::i8_specs;
use vstd::wrapping::isize_specs;

use crate::Abelian;
use crate::IsZero;
use crate::Monoid;
use crate::Multiply;
use crate::Semigroup;

verus! {

/// An `i8` counter whose addition, negation and multiplication wrap modulo
/// two to the eighth.
#[derive(Copy, Ord, PartialOrd, Eq, PartialEq, Debug, Clone, Hash, Structural)]
pub struct WrappingI8 {
    /// The wrapped value.
    pub value: i8,
}

impl IsZero for WrappingI8 {
    type Model = i8;

    open spec fn model(&self) -> i8 {
        self.value
    }

    open spec fn model_ok(m: i8) -> bool {
        true
    }

    open spec fn model_is_zero(m: i8) -> bool {
        m == 0
    }

    proof fn lemma_model_ok(v: WrappingI8) {
    }

    fn is_zero(&self) -> (r: bool) {
        self.value == 0
    }
}

impl Semigroup for WrappingI8 {
    open spec fn plus_ok(a: i8, b: i8) -> bool {
        true
    }

    open spec fn plus_fn(a: i8, b: i8) -> i8 {
        i8_specs::wrapping_add(a, b)
    }

    fn twin(&self) -> (r: WrappingI8) {
        WrappingI8 { value: self.value }
    }

    fn plus_equals(&mut self, rhs: &WrappingI8) {
        self.value = self.value.wrapping_add(rhs.value);
    }

    proof fn lemma_plus_commutes(a: i8, b: i8) {
    }

    proof fn lemma_plus_associates(a: i8, b: i8, c: i8) {
    }
}

impl Monoid for WrappingI8 {
    open spec fn zero_model() -> i8 {
        0
    }

    fn zero() -> (z: WrappingI8) {
        WrappingI8 { value: 0 }
    }

    proof fn lemma_zero_is_zero() {
    }

    proof fn lemma_plus_zero(a: i8) {
    }
}

impl Abelian for WrappingI8 {
    open spec fn negate_ok(a: i8) -> bool {
        true
    }

    open spec fn negate_fn(a: i8) -> i8 {
        i8_specs::wrapping_sub(0, a)
    }

    fn negate(&mut self) {
        self.value = (0 as i8).wrapping_sub(self.value);
    }

    proof fn lemma_negate_cancels(a: i8) {
    }
}

impl Multiply<WrappingI8> for WrappingI8 {
    type Output = WrappingI8;

    open spec fn multiply_ok(a: WrappingI8, b: WrappingI8) -> bool {
        true
    }

    open spec fn multiply_rel(a: WrappingI8, b: WrappingI8, c: WrappingI8) -> bool {
        c.value == i8_specs::wrapping_mul(a.value, b.value)
    }

    fn multiply(self, rhs: &WrappingI8) -> (r: WrappingI8) {
        WrappingI8 { value: self.value.wrapping_mul(rhs.value) }
    }
}

/// An `i16` counter whose addition, negation and multiplication wrap modulo
/// two to the sixteenth.
#[derive(Copy, Ord, PartialOrd, Eq, PartialEq, Debug, Clone, Hash, Structural)]
pub struct WrappingI16 {
    /// The wrapped value.
    pub value: i16,
}

impl IsZero for WrappingI16 {
    type Model = i16;

    open spec fn model(&self) -> i16 {
        self.value
    }

    open spec fn model_ok(m: i16) -> bool {
        true
    }

    open spec fn model_is_zero(m: i16) -> bool {
        m == 0
    }

    proof fn lemma_model_ok(v: WrappingI16) {
    }

    fn is_zero(&self) -> (r: bool) {
        self.value == 0
    }
}

impl Semigroup for WrappingI16 {
    open spec fn plus_ok(a: i16, b: i16) -> bool {
        true
    }

    open spec fn plus_fn(a: i16, b: i16) -> i16 {
        i16_specs::wrapping_add(a, b)
    }

    fn twin(&self) -> (r: WrappingI16) {
        WrappingI16 { value: self.value }
    }

    fn plus_equals(&mut self, rhs: &WrappingI16) {
        self.value = self.value.wrapping_add(rhs.value);
    }

    proof fn lemma_plus_commutes(a: i16, b: i16) {
    }

    proof fn lemma_plus_associates(a: i16, b: i16, c: i16) {
    }
}

impl Monoid for WrappingI16 {
    open spec fn zero_model() -> i16 {
        0
    }

    fn zero() -> (z: WrappingI16) {
        WrappingI16 { value: 0 }
    }

    proof fn lemma_zero_is_zero() {
    }

    proof fn lemma_plus_zero(a: i16) {
    }
}

impl Abelian for WrappingI16 {
    open spec fn negate_ok(a: i16) -> bool {
        true
    }

    open spec fn negate_fn(a: i16) -> i16 {
        i16_specs::wrapping_sub(0, a)
    }

    fn negate(&mut self) {
        self.value = (0 as i16).wrapping_sub(self.value);
    }

    proof fn lemma_negate_cancels(a: i16) {
    }
}

impl Multiply<WrappingI16> for WrappingI16 {
    type Output = WrappingI16;

    open spec fn multiply_ok(a: WrappingI16, b: WrappingI16) -> bool {
        true
    }

    open spec fn multiply_rel(a: WrappingI16, b: WrappingI16, c: WrappingI16) -> bool {
        c.value == i16_specs::wrapping_mul(a.value, b.value)
    }

    fn multiply(self, rhs: &WrappingI16) -> (r: WrappingI16) {
        WrappingI16 { value: self.value.wrapping_mul(rhs.value) }
    }
}

/// An `i32` counter whose addition, negation and multiplication wrap modulo
/// two to the thirty-second.
#[derive(Copy, Ord, PartialOrd, Eq, PartialEq, Debug, Clone, Hash, Structural)]
pub struct WrappingI32 {
    /// The wrapped value.
    pub value: i32,
}

impl IsZero for WrappingI32 {
    type Model = i32;

    open spec fn model(&self) -> i32 {
        self.value
    }

    open spec fn model_ok(m: i32) -> bool {
        true
    }

    open spec fn model_is_zero(m: i32) -> bool {
        m == 0
    }

    proof fn lemma_model_ok(v: WrappingI32) {
    }

    fn is_zero(&self) -> (r: bool) {
        self.value == 0
    }
}

impl Semigroup for WrappingI32 {
    open spec fn plus_ok(a: i32, b: i32) -> bool {
        true
    }

    open spec fn plus_fn(a: i32, b: i32) -> i32 {
        i32_specs::wrapping_add(a, b)
    }

    fn twin(&self) -> (r: WrappingI32) {
        WrappingI32 { value: self.value }
    }

    fn plus_equals(&mut self, rhs: &WrappingI32) {
        self.value = self.value.wrapping_add(rhs.value);
    }

    proof fn lemma_plus_commutes(a: i32, b: i32) {
    }

    proof fn lemma_plus_associates(a: i32, b: i32, c: i32) {
    }
}

impl Monoid for WrappingI32 {
    open spec fn zero_model() -> i32 {
        0
    }

    fn zero() -> (z: WrappingI32) {
        WrappingI32 { value: 0 }
    }

    proof fn lemma_zero_is_zero() {
    }

    proof fn lemma_plus_zero(a: i32) {
    }
}

impl Abelian for WrappingI32 {
    open spec fn negate_ok(a: i32) -> bool {
        true
    }

    open spec fn negate_fn(a: i32) -> i32 {
        i32_specs::wrapping_sub(0, a)
    }

    fn negate(&mut self) {
        self.value = (0 as i32).wrapping_sub(self.value);
    }

    proof fn lemma_negate_cancels(a: i32) {
    }
}

impl Multiply<WrappingI32> for WrappingI32 {
    type Output = WrappingI32;

    open spec fn multiply_ok(a: WrappingI32, b: WrappingI32) -> bool {
        true
    }

    open spec fn multiply_rel(a: WrappingI32, b: WrappingI32, c: WrappingI32) -> bool {
        c.value == i32_specs::wrapping_mul(a.value, b.value)
    }

    fn multiply(self, rhs: &WrappingI32) -> (r: WrappingI32) {
        WrappingI32 { value: self.value.wrapping_mul(rhs.value) }
    }
}

/// An `i64` counter whose addition, negation and multiplication wrap modulo
/// two to the sixty-fourth.
#[derive(Copy, Ord, PartialOrd, Eq, PartialEq, Debug, Clone, Hash, Structural)]
pub struct WrappingI64 {
    /// The wrapped value.
    pub value: i64,
}

impl IsZero for WrappingI64 {
    type Model = i64;

    open spec fn model(&self) -> i64 {
        self.value
    }

    open spec fn model_ok(m: i64) -> bool {
        true
    }

    open spec fn model_is_zero(m: i64) -> bool {
        m == 0
    }

    proof fn lemma_model_ok(v: WrappingI64) {
    }

    fn is_zero(&self) -> (r: bool) {
        self.value == 0
    }
}

impl Semigroup for WrappingI64 {
    open spec fn plus_ok(a: i64, b: i64) -> bool {
        true
    }

    open spec fn plus_fn(a: i64, b: i64) -> i64 {
        i64_specs::wrapping_add(a, b)
    }

    fn twin(&self) -> (r: WrappingI64) {
        WrappingI64 { value: self.value }
    }

    fn plus_equals(&mut self, rhs: &WrappingI64) {
        self.value = self.value.wrapping_add(rhs.value);
    }

    proof fn lemma_plus_commutes(a: i64, b: i64) {
    }

    proof fn lemma_plus_associates(a: i64, b: i64, c: i64) {
    }
}

impl Monoid for WrappingI64 {
    open spec fn zero_model() -> i64 {
        0
    }

    fn zero() -> (z: WrappingI64) {
        WrappingI64 { value: 0 }
    }

    proof fn lemma_zero_is_zero() {
    }

    proof fn lemma_plus_zero(a: i64) {
    }
}

impl Abelian for WrappingI64 {
    open spec fn negate_ok(a: i64) -> bool {
        true
    }

    open spec fn negate_fn(a: i64) -> i64 {
        i64_specs::wrapping_sub(0, a)
    }

    fn negate(&mut self) {
        self.value = (0 as i64).wrapping_sub(self.value);
    }

    proof fn lemma_negate_cancels(a: i64) {
    }
}

impl Multiply<WrappingI64> for WrappingI64 {
    type Output = WrappingI64;

    open spec fn multiply_ok(a: WrappingI64, b: WrappingI64) -> bool {
        true
    }

    open spec fn multiply_rel(a: WrappingI64, b: WrappingI64, c: WrappingI64) -> bool {
        c.value == i64_specs::wrapping_mul(a.value, b.value)
    }

    fn multiply(self, rhs: &WrappingI64) -> (r: WrappingI64) {
        WrappingI64 { value: self.value.wrapping_mul(rhs.value) }
    }
}

/// An `i128` counter whose addition, negation and multiplication wrap modulo
/// two to the hundred-twenty-eighth.
#[derive(Copy, Ord, PartialOrd, Eq, PartialEq, Debug, Clone, Hash, Structural)]
pub struct WrappingI128 {
    /// The wrapped value.
    pub value: i128,
}

impl IsZero for WrappingI128 {
    type Model = i128;

    open spec fn model(&self) -> i128 {
        self.value
    }

    open spec fn model_ok(m: i128) -> bool {
        true
    }

    open spec fn model_is_zero(m: i128) -> bool {
        m == 0
    }

    proof fn lemma_model_ok(v: WrappingI128) {
    }

    fn is_zero(&self) -> (r: bool) {
        self.value == 0
    }
}

impl Semigroup for WrappingI128 {
    open spec fn plus_ok(a: i128, b: i128) -> bool {
        true
    }

    open spec fn plus_fn(a: i128, b: i128) -> i128 {
        i128_specs::wrapping_add(a, b)
    }

    fn twin(&self) -> (r: WrappingI128) {
        WrappingI128 { value: self.value }
    }

    fn plus_equals(&mut self, rhs: &WrappingI128) {
        self.value = self.value.wrapping_add(rhs.value);
    }

    proof fn lemma_plus_commutes(a: i128, b: i128) {
    }

    proof fn lemma_plus_associates(a: i128, b: i128, c: i128) {
    }
}

impl Monoid for WrappingI128 {
    open spec fn zero_model() -> i128 {
        0
    }

    fn zero() -> (z: WrappingI128) {
        WrappingI128 { value: 0 }
    }

    proof fn lemma_zero_is_zero() {
    }

    proof fn lemma_plus_zero(a: i128) {
    }
}

impl Abelian for WrappingI128 {
    open spec fn negate_ok(a: i128) -> bool {
        true
    }

    open spec fn negate_fn(a: i128) -> i128 {
        i128_specs::wrapping_sub(0, a)
    }

    fn negate(&mut self) {
        self.value = (0 as i128).wrapping_sub(self.value);
    }

    proof fn lemma_negate_cancels(a: i128) {
    }
}

impl Multiply<WrappingI128> for WrappingI128 {
    type Output = WrappingI128;

    open spec fn multiply_ok(a: WrappingI128, b: WrappingI128) -> bool {
        true
    }

    open spec fn multiply_rel(a: WrappingI128, b: WrappingI128, c: WrappingI128) -> bool {
        c.value == i128_specs::wrapping_mul(a.value, b.value)
    }

    fn multiply(self, rhs: &WrappingI128) -> (r: WrappingI128) {
        WrappingI128 { value: self.value.wrapping_mul(rhs.value) }
    }
}

/// An `isize` counter whose addition, negation and multiplication wrap modulo
/// the pointer width.
#[derive(Copy, Ord, PartialOrd, Eq, PartialEq, Debug, Clone, Hash, Structural)]
pub struct WrappingIsize {
    /// The wrapped value.
    pub value: isize,
}

impl IsZero for WrappingIsize {
    type Model = isize;

    open spec fn model(&self) -> isize {
        self.value
    }

    open spec fn model_ok(m: isize) -> bool {
        true
    }

    open spec fn model_is_zero(m: isize) -> bool {
        m == 0
    }

    proof fn lemma_model_ok(v: WrappingIsize) {
    }

    fn is_zero(&self) -> (r: bool) {
        self.value == 0
    }
}

impl Semigroup for WrappingIsize {
    open spec fn plus_ok(a: isize, b: isize) -> bool {
        true
    }

    open spec fn plus_fn(a: isize, b: isize) -> isize {
        isize_specs::wrapping_add(a, b)
    }

    fn twin(&self) -> (r: WrappingIsize) {
        WrappingIsize { value: self.value }
    }

    fn plus_equals(&mut self, rhs: &WrappingIsize) {
        self.value = self.value.wrapping_add(rhs.value);
    }

    proof fn lemma_plus_commutes(a: isize, b: isize) {
    }

    proof fn lemma_plus_associates(a: isize, b: isize, c: isize) {
    }
}

impl Monoid for WrappingIsize {
    open spec fn zero_model() -> isize {
        0
    }

    fn zero() -> (z: WrappingIsize) {
        WrappingIsize { value: 0 }
    }

    proof fn lemma_zero_is_zero() {
    }

    proof fn lemma_plus_zero(a: isize) {
    }
}

impl Abelian for WrappingIsize {
    open spec fn negate_ok(a: isize) -> bool {
        true
    }

    open spec fn negate_fn(a: isize) -> isize {
        isize_specs::wrapping_sub(0, a)
    }

    fn negate(&mut self) {
        self.value = (0 as isize).wrapping_sub(self.value);
    }

    proof fn lemma_negate_cancels(a: isize) {
    }
}

impl Multiply<WrappingIsize> for WrappingIsize {
    type Output = WrappingIsize;

    open spec fn multiply_ok(a: WrappingIsize, b: WrappingIsize) -> bool {
        true
    }

    open spec fn multiply_rel(a: WrappingIsize, b: WrappingIsize, c: WrappingIsize) -> bool {
        c.value == isize_specs::wrapping_mul(a.value, b.value)
    }

    fn multiply(self, rhs: &WrappingIsize) -> (r: WrappingIsize) {
        WrappingIsize { value: self.value.wrapping_mul(rhs.value) }
    }
}

} // verus!
