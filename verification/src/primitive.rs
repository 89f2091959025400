//! Capability implementations for the built-in fixed-width integers.
//!
//! Every signed and unsigned integer width is a difference type, modelled by
//! the unbounded integers: the zero test is equality with zero, addition is
//! ordinary addition, and the zero element is the literal zero. Addition and
//! multiplication are defined only while the mathematical result stays
//! representable; callers that expect overflow must use the wrapping
//! variants instead. Only the signed widths get negation: unsigned widths
//! cannot represent negative magnitudes.

use vstd::prelude::*;

use crate::Abelian;
use crate::IsZero;
use crate::Monoid;
use crate::Multiply;
use crate::Semigroup;

verus! {

impl IsZero for i8 {
    type Model = int;

    open spec fn model(&self) -> int {
        *self as int
    }

    open spec fn model_ok(m: int) -> bool {
        i8::MIN <= m <= i8::MAX
    }

    open spec fn model_is_zero(m: int) -> bool {
        m == 0
    }

    proof fn lemma_model_ok(v: i8) {
    }

    fn is_zero(&self) -> (r: bool) {
        *self == 0
    }
}

impl Semigroup for i8 {
    open spec fn plus_ok(a: int, b: int) -> bool {
        i8::MIN <= a + b <= i8::MAX
    }

    open spec fn plus_fn(a: int, b: int) -> int {
        a + b
    }

    fn twin(&self) -> (r: i8) {
        *self
    }

    fn plus_equals(&mut self, rhs: &i8) {
        *self = *self + *rhs;
    }

    proof fn lemma_plus_commutes(a: int, b: int) {
    }

    proof fn lemma_plus_associates(a: int, b: int, c: int) {
    }
}

impl Monoid for i8 {
    open spec fn zero_model() -> int {
        0
    }

    fn zero() -> (z: i8) {
        0
    }

    proof fn lemma_zero_is_zero() {
    }

    proof fn lemma_plus_zero(a: int) {
    }
}

impl Abelian for i8 {
    open spec fn negate_ok(a: int) -> bool {
        a != i8::MIN
    }

    open spec fn negate_fn(a: int) -> int {
        -a
    }

    fn negate(&mut self) {
        *self = -*self;
    }

    proof fn lemma_negate_cancels(a: int) {
    }
}

impl Multiply<i8> for i8 {
    type Output = i8;

    open spec fn multiply_ok(a: i8, b: i8) -> bool {
        i8::MIN <= a * b <= i8::MAX
    }

    open spec fn multiply_rel(a: i8, b: i8, c: i8) -> bool {
        c == a * b
    }

    fn multiply(self, rhs: &i8) -> (r: i8) {
        self * *rhs
    }
}

impl IsZero for i16 {
    type Model = int;

    open spec fn model(&self) -> int {
        *self as int
    }

    open spec fn model_ok(m: int) -> bool {
        i16::MIN <= m <= i16::MAX
    }

    open spec fn model_is_zero(m: int) -> bool {
        m == 0
    }

    proof fn lemma_model_ok(v: i16) {
    }

    fn is_zero(&self) -> (r: bool) {
        *self == 0
    }
}

impl Semigroup for i16 {
    open spec fn plus_ok(a: int, b: int) -> bool {
        i16::MIN <= a + b <= i16::MAX
    }

    open spec fn plus_fn(a: int, b: int) -> int {
        a + b
    }

    fn twin(&self) -> (r: i16) {
        *self
    }

    fn plus_equals(&mut self, rhs: &i16) {
        *self = *self + *rhs;
    }

    proof fn lemma_plus_commutes(a: int, b: int) {
    }

    proof fn lemma_plus_associates(a: int, b: int, c: int) {
    }
}

impl Monoid for i16 {
    open spec fn zero_model() -> int {
        0
    }

    fn zero() -> (z: i16) {
        0
    }

    proof fn lemma_zero_is_zero() {
    }

    proof fn lemma_plus_zero(a: int) {
    }
}

impl Abelian for i16 {
    open spec fn negate_ok(a: int) -> bool {
        a != i16::MIN
    }

    open spec fn negate_fn(a: int) -> int {
        -a
    }

    fn negate(&mut self) {
        *self = -*self;
    }

    proof fn lemma_negate_cancels(a: int) {
    }
}

impl Multiply<i16> for i16 {
    type Output = i16;

    open spec fn multiply_ok(a: i16, b: i16) -> bool {
        i16::MIN <= a * b <= i16::MAX
    }

    open spec fn multiply_rel(a: i16, b: i16, c: i16) -> bool {
        c == a * b
    }

    fn multiply(self, rhs: &i16) -> (r: i16) {
        self * *rhs
    }
}

impl IsZero for i32 {
    type Model = int;

    open spec fn model(&self) -> int {
        *self as int
    }

    open spec fn model_ok(m: int) -> bool {
        i32::MIN <= m <= i32::MAX
    }

    open spec fn model_is_zero(m: int) -> bool {
        m == 0
    }

    proof fn lemma_model_ok(v: i32) {
    }

    fn is_zero(&self) -> (r: bool) {
        *self == 0
    }
}

impl Semigroup for i32 {
    open spec fn plus_ok(a: int, b: int) -> bool {
        i32::MIN <= a + b <= i32::MAX
    }

    open spec fn plus_fn(a: int, b: int) -> int {
        a + b
    }

    fn twin(&self) -> (r: i32) {
        *self
    }

    fn plus_equals(&mut self, rhs: &i32) {
        *self = *self + *rhs;
    }

    proof fn lemma_plus_commutes(a: int, b: int) {
    }

    proof fn lemma_plus_associates(a: int, b: int, c: int) {
    }
}

impl Monoid for i32 {
    open spec fn zero_model() -> int {
        0
    }

    fn zero() -> (z: i32) {
        0
    }

    proof fn lemma_zero_is_zero() {
    }

    proof fn lemma_plus_zero(a: int) {
    }
}

impl Abelian for i32 {
    open spec fn negate_ok(a: int) -> bool {
        a != i32::MIN
    }

    open spec fn negate_fn(a: int) -> int {
        -a
    }

    fn negate(&mut self) {
        *self = -*self;
    }

    proof fn lemma_negate_cancels(a: int) {
    }
}

impl Multiply<i32> for i32 {
    type Output = i32;

    open spec fn multiply_ok(a: i32, b: i32) -> bool {
        i32::MIN <= a * b <= i32::MAX
    }

    open spec fn multiply_rel(a: i32, b: i32, c: i32) -> bool {
        c == a * b
    }

    fn multiply(self, rhs: &i32) -> (r: i32) {
        self * *rhs
    }
}

impl IsZero for i64 {
    type Model = int;

    open spec fn model(&self) -> int {
        *self as int
    }

    open spec fn model_ok(m: int) -> bool {
        i64::MIN <= m <= i64::MAX
    }

    open spec fn model_is_zero(m: int) -> bool {
        m == 0
    }

    proof fn lemma_model_ok(v: i64) {
    }

    fn is_zero(&self) -> (r: bool) {
        *self == 0
    }
}

impl Semigroup for i64 {
    open spec fn plus_ok(a: int, b: int) -> bool {
        i64::MIN <= a + b <= i64::MAX
    }

    open spec fn plus_fn(a: int, b: int) -> int {
        a + b
    }

    fn twin(&self) -> (r: i64) {
        *self
    }

    fn plus_equals(&mut self, rhs: &i64) {
        *self = *self + *rhs;
    }

    proof fn lemma_plus_commutes(a: int, b: int) {
    }

    proof fn lemma_plus_associates(a: int, b: int, c: int) {
    }
}

impl Monoid for i64 {
    open spec fn zero_model() -> int {
        0
    }

    fn zero() -> (z: i64) {
        0
    }

    proof fn lemma_zero_is_zero() {
    }

    proof fn lemma_plus_zero(a: int) {
    }
}

impl Abelian for i64 {
    open spec fn negate_ok(a: int) -> bool {
        a != i64::MIN
    }

    open spec fn negate_fn(a: int) -> int {
        -a
    }

    fn negate(&mut self) {
        *self = -*self;
    }

    proof fn lemma_negate_cancels(a: int) {
    }
}

impl Multiply<i64> for i64 {
    type Output = i64;

    open spec fn multiply_ok(a: i64, b: i64) -> bool {
        i64::MIN <= a * b <= i64::MAX
    }

    open spec fn multiply_rel(a: i64, b: i64, c: i64) -> bool {
        c == a * b
    }

    fn multiply(self, rhs: &i64) -> (r: i64) {
        self * *rhs
    }
}

impl IsZero for i128 {
    type Model = int;

    open spec fn model(&self) -> int {
        *self as int
    }

    open spec fn model_ok(m: int) -> bool {
        i128::MIN <= m <= i128::MAX
    }

    open spec fn model_is_zero(m: int) -> bool {
        m == 0
    }

    proof fn lemma_model_ok(v: i128) {
    }

    fn is_zero(&self) -> (r: bool) {
        *self == 0
    }
}

impl Semigroup for i128 {
    open spec fn plus_ok(a: int, b: int) -> bool {
        i128::MIN <= a + b <= i128::MAX
    }

    open spec fn plus_fn(a: int, b: int) -> int {
        a + b
    }

    fn twin(&self) -> (r: i128) {
        *self
    }

    fn plus_equals(&mut self, rhs: &i128) {
        *self = *self + *rhs;
    }

    proof fn lemma_plus_commutes(a: int, b: int) {
    }

    proof fn lemma_plus_associates(a: int, b: int, c: int) {
    }
}

impl Monoid for i128 {
    open spec fn zero_model() -> int {
        0
    }

    fn zero() -> (z: i128) {
        0
    }

    proof fn lemma_zero_is_zero() {
    }

    proof fn lemma_plus_zero(a: int) {
    }
}

impl Abelian for i128 {
    open spec fn negate_ok(a: int) -> bool {
        a != i128::MIN
    }

    open spec fn negate_fn(a: int) -> int {
        -a
    }

    fn negate(&mut self) {
        *self = -*self;
    }

    proof fn lemma_negate_cancels(a: int) {
    }
}

impl Multiply<i128> for i128 {
    type Output = i128;

    open spec fn multiply_ok(a: i128, b: i128) -> bool {
        i128::MIN <= a * b <= i128::MAX
    }

    open spec fn multiply_rel(a: i128, b: i128, c: i128) -> bool {
        c == a * b
    }

    fn multiply(self, rhs: &i128) -> (r: i128) {
        self * *rhs
    }
}

impl IsZero for isize {
    type Model = int;

    open spec fn model(&self) -> int {
        *self as int
    }

    open spec fn model_ok(m: int) -> bool {
        isize::MIN <= m <= isize::MAX
    }

    open spec fn model_is_zero(m: int) -> bool {
        m == 0
    }

    proof fn lemma_model_ok(v: isize) {
    }

    fn is_zero(&self) -> (r: bool) {
        *self == 0
    }
}

impl Semigroup for isize {
    open spec fn plus_ok(a: int, b: int) -> bool {
        isize::MIN <= a + b <= isize::MAX
    }

    open spec fn plus_fn(a: int, b: int) -> int {
        a + b
    }

    fn twin(&self) -> (r: isize) {
        *self
    }

    fn plus_equals(&mut self, rhs: &isize) {
        *self = *self + *rhs;
    }

    proof fn lemma_plus_commutes(a: int, b: int) {
    }

    proof fn lemma_plus_associates(a: int, b: int, c: int) {
    }
}

impl Monoid for isize {
    open spec fn zero_model() -> int {
        0
    }

    fn zero() -> (z: isize) {
        0
    }

    proof fn lemma_zero_is_zero() {
    }

    proof fn lemma_plus_zero(a: int) {
    }
}

impl Abelian for isize {
    open spec fn negate_ok(a: int) -> bool {
        a != isize::MIN
    }

    open spec fn negate_fn(a: int) -> int {
        -a
    }

    fn negate(&mut self) {
        *self = -*self;
    }

    proof fn lemma_negate_cancels(a: int) {
    }
}

impl Multiply<isize> for isize {
    type Output = isize;

    open spec fn multiply_ok(a: isize, b: isize) -> bool {
        isize::MIN <= a * b <= isize::MAX
    }

    open spec fn multiply_rel(a: isize, b: isize, c: isize) -> bool {
        c == a * b
    }

    fn multiply(self, rhs: &isize) -> (r: isize) {
        self * *rhs
    }
}

impl IsZero for u8 {
    type Model = int;

    open spec fn model(&self) -> int {
        *self as int
    }

    open spec fn model_ok(m: int) -> bool {
        0 <= m <= u8::MAX
    }

    open spec fn model_is_zero(m: int) -> bool {
        m == 0
    }

    proof fn lemma_model_ok(v: u8) {
    }

    fn is_zero(&self) -> (r: bool) {
        *self == 0
    }
}

impl Semigroup for u8 {
    open spec fn plus_ok(a: int, b: int) -> bool {
        0 <= a + b <= u8::MAX
    }

    open spec fn plus_fn(a: int, b: int) -> int {
        a + b
    }

    fn twin(&self) -> (r: u8) {
        *self
    }

    fn plus_equals(&mut self, rhs: &u8) {
        *self = *self + *rhs;
    }

    proof fn lemma_plus_commutes(a: int, b: int) {
    }

    proof fn lemma_plus_associates(a: int, b: int, c: int) {
    }
}

impl Monoid for u8 {
    open spec fn zero_model() -> int {
        0
    }

    fn zero() -> (z: u8) {
        0
    }

    proof fn lemma_zero_is_zero() {
    }

    proof fn lemma_plus_zero(a: int) {
    }
}

impl Multiply<u8> for u8 {
    type Output = u8;

    open spec fn multiply_ok(a: u8, b: u8) -> bool {
        a * b <= u8::MAX
    }

    open spec fn multiply_rel(a: u8, b: u8, c: u8) -> bool {
        c == a * b
    }

    fn multiply(self, rhs: &u8) -> (r: u8) {
        self * *rhs
    }
}

impl IsZero for u16 {
    type Model = int;

    open spec fn model(&self) -> int {
        *self as int
    }

    open spec fn model_ok(m: int) -> bool {
        0 <= m <= u16::MAX
    }

    open spec fn model_is_zero(m: int) -> bool {
        m == 0
    }

    proof fn lemma_model_ok(v: u16) {
    }

    fn is_zero(&self) -> (r: bool) {
        *self == 0
    }
}

impl Semigroup for u16 {
    open spec fn plus_ok(a: int, b: int) -> bool {
        0 <= a + b <= u16::MAX
    }

    open spec fn plus_fn(a: int, b: int) -> int {
        a + b
    }

    fn twin(&self) -> (r: u16) {
        *self
    }

    fn plus_equals(&mut self, rhs: &u16) {
        *self = *self + *rhs;
    }

    proof fn lemma_plus_commutes(a: int, b: int) {
    }

    proof fn lemma_plus_associates(a: int, b: int, c: int) {
    }
}

impl Monoid for u16 {
    open spec fn zero_model() -> int {
        0
    }

    fn zero() -> (z: u16) {
        0
    }

    proof fn lemma_zero_is_zero() {
    }

    proof fn lemma_plus_zero(a: int) {
    }
}

impl Multiply<u16> for u16 {
    type Output = u16;

    open spec fn multiply_ok(a: u16, b: u16) -> bool {
        a * b <= u16::MAX
    }

    open spec fn multiply_rel(a: u16, b: u16, c: u16) -> bool {
        c == a * b
    }

    fn multiply(self, rhs: &u16) -> (r: u16) {
        self * *rhs
    }
}

impl IsZero for u32 {
    type Model = int;

    open spec fn model(&self) -> int {
        *self as int
    }

    open spec fn model_ok(m: int) -> bool {
        0 <= m <= u32::MAX
    }

    open spec fn model_is_zero(m: int) -> bool {
        m == 0
    }

    proof fn lemma_model_ok(v: u32) {
    }

    fn is_zero(&self) -> (r: bool) {
        *self == 0
    }
}

impl Semigroup for u32 {
    open spec fn plus_ok(a: int, b: int) -> bool {
        0 <= a + b <= u32::MAX
    }

    open spec fn plus_fn(a: int, b: int) -> int {
        a + b
    }

    fn twin(&self) -> (r: u32) {
        *self
    }

    fn plus_equals(&mut self, rhs: &u32) {
        *self = *self + *rhs;
    }

    proof fn lemma_plus_commutes(a: int, b: int) {
    }

    proof fn lemma_plus_associates(a: int, b: int, c: int) {
    }
}

impl Monoid for u32 {
    open spec fn zero_model() -> int {
        0
    }

    fn zero() -> (z: u32) {
        0
    }

    proof fn lemma_zero_is_zero() {
    }

    proof fn lemma_plus_zero(a: int) {
    }
}

impl Multiply<u32> for u32 {
    type Output = u32;

    open spec fn multiply_ok(a: u32, b: u32) -> bool {
        a * b <= u32::MAX
    }

    open spec fn multiply_rel(a: u32, b: u32, c: u32) -> bool {
        c == a * b
    }

    fn multiply(self, rhs: &u32) -> (r: u32) {
        self * *rhs
    }
}

impl IsZero for u64 {
    type Model = int;

    open spec fn model(&self) -> int {
        *self as int
    }

    open spec fn model_ok(m: int) -> bool {
        0 <= m <= u64::MAX
    }

    open spec fn model_is_zero(m: int) -> bool {
        m == 0
    }

    proof fn lemma_model_ok(v: u64) {
    }

    fn is_zero(&self) -> (r: bool) {
        *self == 0
    }
}

impl Semigroup for u64 {
    open spec fn plus_ok(a: int, b: int) -> bool {
        0 <= a + b <= u64::MAX
    }

    open spec fn plus_fn(a: int, b: int) -> int {
        a + b
    }

    fn twin(&self) -> (r: u64) {
        *self
    }

    fn plus_equals(&mut self, rhs: &u64) {
        *self = *self + *rhs;
    }

    proof fn lemma_plus_commutes(a: int, b: int) {
    }

    proof fn lemma_plus_associates(a: int, b: int, c: int) {
    }
}

impl Monoid for u64 {
    open spec fn zero_model() -> int {
        0
    }

    fn zero() -> (z: u64) {
        0
    }

    proof fn lemma_zero_is_zero() {
    }

    proof fn lemma_plus_zero(a: int) {
    }
}

impl Multiply<u64> for u64 {
    type Output = u64;

    open spec fn multiply_ok(a: u64, b: u64) -> bool {
        a * b <= u64::MAX
    }

    open spec fn multiply_rel(a: u64, b: u64, c: u64) -> bool {
        c == a * b
    }

    fn multiply(self, rhs: &u64) -> (r: u64) {
        self * *rhs
    }
}

impl IsZero for u128 {
    type Model = int;

    open spec fn model(&self) -> int {
        *self as int
    }

    open spec fn model_ok(m: int) -> bool {
        0 <= m <= u128::MAX
    }

    open spec fn model_is_zero(m: int) -> bool {
        m == 0
    }

    proof fn lemma_model_ok(v: u128) {
    }

    fn is_zero(&self) -> (r: bool) {
        *self == 0
    }
}

impl Semigroup for u128 {
    open spec fn plus_ok(a: int, b: int) -> bool {
        0 <= a + b <= u128::MAX
    }

    open spec fn plus_fn(a: int, b: int) -> int {
        a + b
    }

    fn twin(&self) -> (r: u128) {
        *self
    }

    fn plus_equals(&mut self, rhs: &u128) {
        *self = *self + *rhs;
    }

    proof fn lemma_plus_commutes(a: int, b: int) {
    }

    proof fn lemma_plus_associates(a: int, b: int, c: int) {
    }
}

impl Monoid for u128 {
    open spec fn zero_model() -> int {
        0
    }

    fn zero() -> (z: u128) {
        0
    }

    proof fn lemma_zero_is_zero() {
    }

    proof fn lemma_plus_zero(a: int) {
    }
}

impl Multiply<u128> for u128 {
    type Output = u128;

    open spec fn multiply_ok(a: u128, b: u128) -> bool {
        a * b <= u128::MAX
    }

    open spec fn multiply_rel(a: u128, b: u128, c: u128) -> bool {
        c == a * b
    }

    fn multiply(self, rhs: &u128) -> (r: u128) {
        self * *rhs
    }
}

impl IsZero for usize {
    type Model = int;

    open spec fn model(&self) -> int {
        *self as int
    }

    open spec fn model_ok(m: int) -> bool {
        0 <= m <= usize::MAX
    }

    open spec fn model_is_zero(m: int) -> bool {
        m == 0
    }

    proof fn lemma_model_ok(v: usize) {
    }

    fn is_zero(&self) -> (r: bool) {
        *self == 0
    }
}

impl Semigroup for usize {
    open spec fn plus_ok(a: int, b: int) -> bool {
        0 <= a + b <= usize::MAX
    }

    open spec fn plus_fn(a: int, b: int) -> int {
        a + b
    }

    fn twin(&self) -> (r: usize) {
        *self
    }

    fn plus_equals(&mut self, rhs: &usize) {
        *self = *self + *rhs;
    }

    proof fn lemma_plus_commutes(a: int, b: int) {
    }

    proof fn lemma_plus_associates(a: int, b: int, c: int) {
    }
}

impl Monoid for usize {
    open spec fn zero_model() -> int {
        0
    }

    fn zero() -> (z: usize) {
        0
    }

    proof fn lemma_zero_is_zero() {
    }

    proof fn lemma_plus_zero(a: int) {
    }
}

impl Multiply<usize> for usize {
    type Output = usize;

    open spec fn multiply_ok(a: usize, b: usize) -> bool {
        a * b <= usize::MAX
    }

    open spec fn multiply_rel(a: usize, b: usize, c: usize) -> bool {
        c == a * b
    }

    fn multiply(self, rhs: &usize) -> (r: usize) {
        self * *rhs
    }
}

} // verus!
