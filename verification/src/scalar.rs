//! The scalars that coordinates and structure constants are made of.

use core::ops::{Add, Mul, Sub};
use vstd::prelude::*;
use vstd::std_specs::ops::{AddSpec, MulSpec, SubSpec};

verus! {

/// A scalar type whose `+`, `-` and `*` are integer arithmetic, as long as the
/// result is an integer that the type can hold.
///
/// Every contract of this crate speaks of scalars through [`Scalar::value`], so
/// the laws of integer arithmetic carry over to vectors of any such type.
pub trait Scalar: Copy + Add<Output = Self> + Sub<Output = Self> + Mul<Output = Self> {
    /// The integer that the scalar stands for.
    spec fn value(self) -> int;

    /// Whether the type can hold the integer `v`.
    spec fn fits(v: int) -> bool;

    /// The type can hold zero.
    proof fn lemma_zero_fits()
        ensures
            Self::fits(0),
    ;

    /// `a + b` can be computed when the sum fits, and stands for the sum.
    proof fn lemma_sum(a: Self, b: Self)
        requires
            Self::fits(a.value() + b.value()),
        ensures
            Self::obeys_add_spec(),
            a.add_req(b),
            a.add_spec(b).value() == a.value() + b.value(),
    ;

    /// `a - b` can be computed when the difference fits, and stands for the
    /// difference.
    proof fn lemma_difference(a: Self, b: Self)
        requires
            Self::fits(a.value() - b.value()),
        ensures
            Self::obeys_sub_spec(),
            a.sub_req(b),
            a.sub_spec(b).value() == a.value() - b.value(),
    ;

    /// `a * b` can be computed when the product fits, and stands for the
    /// product.
    proof fn lemma_product(a: Self, b: Self)
        requires
            Self::fits(a.value() * b.value()),
        ensures
            Self::obeys_mul_spec(),
            a.mul_req(b),
            a.mul_spec(b).value() == a.value() * b.value(),
    ;
}

impl Scalar for i8 {
    open spec fn value(self) -> int {
        self as int
    }

    open spec fn fits(v: int) -> bool {
        i8::MIN <= v <= i8::MAX
    }

    proof fn lemma_zero_fits() {
    }

    proof fn lemma_sum(a: Self, b: Self) {
    }

    proof fn lemma_difference(a: Self, b: Self) {
    }

    proof fn lemma_product(a: Self, b: Self) {
    }
}

impl Scalar for i16 {
    open spec fn value(self) -> int {
        self as int
    }

    open spec fn fits(v: int) -> bool {
        i16::MIN <= v <= i16::MAX
    }

    proof fn lemma_zero_fits() {
    }

    proof fn lemma_sum(a: Self, b: Self) {
    }

    proof fn lemma_difference(a: Self, b: Self) {
    }

    proof fn lemma_product(a: Self, b: Self) {
    }
}

impl Scalar for i32 {
    open spec fn value(self) -> int {
        self as int
    }

    open spec fn fits(v: int) -> bool {
        i32::MIN <= v <= i32::MAX
    }

    proof fn lemma_zero_fits() {
    }

    proof fn lemma_sum(a: Self, b: Self) {
    }

    proof fn lemma_difference(a: Self, b: Self) {
    }

    proof fn lemma_product(a: Self, b: Self) {
    }
}

impl Scalar for i64 {
    open spec fn value(self) -> int {
        self as int
    }

    open spec fn fits(v: int) -> bool {
        i64::MIN <= v <= i64::MAX
    }

    proof fn lemma_zero_fits() {
    }

    proof fn lemma_sum(a: Self, b: Self) {
    }

    proof fn lemma_difference(a: Self, b: Self) {
    }

    proof fn lemma_product(a: Self, b: Self) {
    }
}

impl Scalar for i128 {
    open spec fn value(self) -> int {
        self as int
    }

    open spec fn fits(v: int) -> bool {
        i128::MIN <= v <= i128::MAX
    }

    proof fn lemma_zero_fits() {
    }

    proof fn lemma_sum(a: Self, b: Self) {
    }

    proof fn lemma_difference(a: Self, b: Self) {
    }

    proof fn lemma_product(a: Self, b: Self) {
    }
}

impl Scalar for isize {
    open spec fn value(self) -> int {
        self as int
    }

    open spec fn fits(v: int) -> bool {
        isize::MIN <= v <= isize::MAX
    }

    proof fn lemma_zero_fits() {
    }

    proof fn lemma_sum(a: Self, b: Self) {
    }

    proof fn lemma_difference(a: Self, b: Self) {
    }

    proof fn lemma_product(a: Self, b: Self) {
    }
}

impl Scalar for u8 {
    open spec fn value(self) -> int {
        self as int
    }

    open spec fn fits(v: int) -> bool {
        u8::MIN <= v <= u8::MAX
    }

    proof fn lemma_zero_fits() {
    }

    proof fn lemma_sum(a: Self, b: Self) {
    }

    proof fn lemma_difference(a: Self, b: Self) {
    }

    proof fn lemma_product(a: Self, b: Self) {
    }
}

impl Scalar for u16 {
    open spec fn value(self) -> int {
        self as int
    }

    open spec fn fits(v: int) -> bool {
        u16::MIN <= v <= u16::MAX
    }

    proof fn lemma_zero_fits() {
    }

    proof fn lemma_sum(a: Self, b: Self) {
    }

    proof fn lemma_difference(a: Self, b: Self) {
    }

    proof fn lemma_product(a: Self, b: Self) {
    }
}

impl Scalar for u32 {
    open spec fn value(self) -> int {
        self as int
    }

    open spec fn fits(v: int) -> bool {
        u32::MIN <= v <= u32::MAX
    }

    proof fn lemma_zero_fits() {
    }

    proof fn lemma_sum(a: Self, b: Self) {
    }

    proof fn lemma_difference(a: Self, b: Self) {
    }

    proof fn lemma_product(a: Self, b: Self) {
    }
}

impl Scalar for u64 {
    open spec fn value(self) -> int {
        self as int
    }

    open spec fn fits(v: int) -> bool {
        u64::MIN <= v <= u64::MAX
    }

    proof fn lemma_zero_fits() {
    }

    proof fn lemma_sum(a: Self, b: Self) {
    }

    proof fn lemma_difference(a: Self, b: Self) {
    }

    proof fn lemma_product(a: Self, b: Self) {
    }
}

impl Scalar for u128 {
    open spec fn value(self) -> int {
        self as int
    }

    open spec fn fits(v: int) -> bool {
        u128::MIN <= v <= u128::MAX
    }

    proof fn lemma_zero_fits() {
    }

    proof fn lemma_sum(a: Self, b: Self) {
    }

    proof fn lemma_difference(a: Self, b: Self) {
    }

    proof fn lemma_product(a: Self, b: Self) {
    }
}

impl Scalar for usize {
    open spec fn value(self) -> int {
        self as int
    }

    open spec fn fits(v: int) -> bool {
        usize::MIN <= v <= usize::MAX
    }

    proof fn lemma_zero_fits() {
    }

    proof fn lemma_sum(a: Self, b: Self) {
    }

    proof fn lemma_difference(a: Self, b: Self) {
    }

    proof fn lemma_product(a: Self, b: Self) {
    }
}

} // verus!
