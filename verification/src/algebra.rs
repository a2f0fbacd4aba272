//! Algebras and their vectors.
//!
//! An [`Algebra`] is a dimension together with a borrowed tensor of structure
//! constants. It mints [`AlgebraicVector`]s, which keep a copy of it and can be
//! indexed, added (`+`, `+=`) and multiplied (`*`).
//!
//! Nothing here validates shapes: the operators ask in their preconditions for
//! the coordinates and structure constants that they read, and for scalars
//! that can hold each intermediate result.

use crate::model::{
    plane_sum, product_coordinate, product_fits, product_step_fits, row_sum, sum_fits,
    tensor_covers, vector_increased, vector_product, vector_sum,
};
use crate::scalar::Scalar;
use core::ops::{Add, AddAssign, Index, Mul};
use vstd::prelude::*;
use vstd::std_specs::ops::{AddSpecImpl, MulSpec, MulSpecImpl};

verus! {

/// An algebra of dimension `dim` over the scalars `T`, given by its structure
/// constants: the product of basis elements `j` and `k` holds
/// `p_tensor[i][j][k]` of basis element `i`.
///
/// The algebra borrows the tensor and never changes it, so copying an algebra
/// copies a reference and a number.
#[derive(Debug)]
pub struct Algebra<'v, T: Copy + Mul> {
    pub dim: usize,
    pub p_tensor: &'v Vec<Vec<Vec<T>>>,
}

/// A vector of an algebra: `data[i]` is its coordinate along basis element
/// `i`.
#[derive(Debug)]
pub struct AlgebraicVector<'v, T: Copy + Mul> {
    pub algebra: Algebra<'v, T>,
    pub data: Vec<T>,
}

impl<'v, T: Copy + Mul> Clone for Algebra<'v, T> {
    fn clone(&self) -> (copy: Self)
        ensures
            copy == *self,
    {
        *self
    }
}

impl<'v, T: Copy + Mul> Copy for Algebra<'v, T> {

}

impl<'v, T: Copy + Mul> Algebra<'v, T> {
    /// The vector of this algebra with the coordinates `data`.
    pub open spec fn spec_create_vector(self, data: Vec<T>) -> AlgebraicVector<'v, T> {
        AlgebraicVector { algebra: self, data }
    }

    /// Makes the vector of this algebra that has the coordinates `data`,
    /// whatever their number.
    #[verifier::when_used_as_spec(spec_create_vector)]
    pub fn create_vector(self, data: Vec<T>) -> (vector: AlgebraicVector<'v, T>)
        ensures
            vector == self.spec_create_vector(data),
    {
        AlgebraicVector { algebra: self, data }
    }
}

impl<'v, T: Scalar> Algebra<'v, T> {
    /// The structure constants, as the integers that they stand for.
    pub open spec fn tensor(self) -> Seq<Seq<Seq<int>>> {
        Seq::new(
            self.p_tensor@.len(),
            |i: int|
                Seq::new(
                    self.p_tensor@[i]@.len(),
                    |j: int|
                        Seq::new(
                            self.p_tensor@[i]@[j]@.len(),
                            |k: int| self.p_tensor@[i]@[j]@[k].value(),
                        ),
                ),
        )
    }
}

impl<'v, T: Copy + Mul> AlgebraicVector<'v, T> {
    /// Coordinate `i` of the vector.
    pub open spec fn spec_index(self, i: int) -> T
        recommends
            0 <= i < self.data@.len(),
    {
        self.data@[i]
    }
}

impl<'v, T: Scalar> View for AlgebraicVector<'v, T> {
    type V = Seq<int>;

    /// The coordinates, as the integers that they stand for.
    open spec fn view(&self) -> Seq<int> {
        Seq::new(self.data@.len(), |i: int| self.data@[i].value())
    }
}

impl<'v, T: Copy + Mul> Clone for AlgebraicVector<'v, T> {
    /// A vector of the same algebra with the same coordinates.
    fn clone(&self) -> (copy: Self)
        ensures
            copy.algebra == self.algebra,
            copy.data@ == self.data@,
    {
        let mut data: Vec<T> = vec![];
        for i in 0..self.data.len()
            invariant
                data@ == self.data@.take(i as int),
        {
            data.push(self.data[i]);
        }
        self.algebra.create_vector(data)
    }
}

impl<'v, T> vstd::std_specs::core::IndexSpecImpl<usize> for AlgebraicVector<'v, T> where T: Copy + Mul + Add {
    /// The vector has a coordinate `index`.
    open spec fn index_req(&self, index: &usize) -> bool {
        *index < self.data@.len()
    }
}

impl<'v, T> Index<usize> for AlgebraicVector<'v, T> where T: Copy + Mul + Add {
    type Output = T;

    /// Coordinate `index` of the vector.
    fn index(&self, index: usize) -> (coordinate: &T)
        ensures
            *coordinate == self[index as int],
    {
        &self.data[index]
    }
}

impl<'v, T: Scalar> AddSpecImpl for AlgebraicVector<'v, T> {
    /// A sum is known by the integers that its coordinates stand for, which
    /// the `ensures` of `add` states; no vector is named as the sum.
    open spec fn obeys_add_spec() -> bool {
        false
    }

    /// Both vectors have a coordinate for each basis element of the algebra
    /// of `self`, and each sum of two such coordinates fits `T`.
    open spec fn add_req(self, rhs: Self) -> bool {
        let dim = self.algebra.dim as nat;
        &&& dim <= self@.len()
        &&& dim <= rhs@.len()
        &&& sum_fits::<T>(self@, rhs@, dim)
    }

    open spec fn add_spec(self, rhs: Self) -> Self {
        arbitrary()
    }
}

impl<'v, T: Scalar> Add for AlgebraicVector<'v, T> {
    type Output = Self;

    /// The componentwise sum of the two vectors, as a vector of the algebra of
    /// `self` with one coordinate for each of its basis elements.
    #[verifier::loop_isolation(false)]
    fn add(self, rhs: Self) -> (sum: Self)
        ensures
            sum.algebra == self.algebra,
            sum@ == vector_sum(self@, rhs@, self.algebra.dim as nat),
    {
        let mut data: Vec<T> = vec![];

        for i in 0..self.algebra.dim
            invariant
                data@.len() == i,
                forall|m: int|
                    0 <= m < i ==> (#[trigger] data@[m]).value() == self@[m] + rhs@[m],
        {
            proof {
                assert(T::fits(self@[i as int] + rhs@[i as int]));
                T::lemma_sum(self.data@[i as int], rhs.data@[i as int]);
            }
            data.push(self[i] + rhs[i]);
        }

        self.algebra.create_vector(data)
    }
}

impl<'v, T: Scalar> AddAssign for AlgebraicVector<'v, T> {
    /// Adds `rhs` to the vector in place, coordinate by coordinate, over the
    /// basis elements of the vector's algebra. Coordinates beyond them, if the
    /// vector has any, are kept.
    #[verifier::loop_isolation(false)]
    fn add_assign(&mut self, rhs: Self)
        requires
            old(self).algebra.dim <= old(self)@.len(),
            old(self).algebra.dim <= rhs@.len(),
            sum_fits::<T>(old(self)@, rhs@, old(self).algebra.dim as nat),
        ensures
            final(self).algebra == old(self).algebra,
            final(self)@ == vector_increased(old(self)@, rhs@, old(self).algebra.dim as nat),
    {
        let dim = self.algebra.dim;
        for i in 0..dim
            invariant
                self.algebra == old(self).algebra,
                self.data@.len() == old(self).data@.len(),
                self@ == vector_increased(old(self)@, rhs@, i as nat),
        {
            let ghost before = self@;
            proof {
                assert(before[i as int] == old(self)@[i as int]);
                assert(T::fits(old(self)@[i as int] + rhs@[i as int]));
                T::lemma_sum(self.data@[i as int], rhs.data@[i as int]);
            }
            self.data[i] = self.data[i] + rhs[i];
            proof {
                let after = vector_increased(old(self)@, rhs@, (i + 1) as nat);
                assert forall|m: int| 0 <= m < after.len() implies self@[m] == after[m] by {
                    if m != i {
                        assert(self@[m] == before[m]);
                    }
                }
                assert(self@ =~= after);
            }
        }
    }
}

impl<'v, T: Scalar> MulSpecImpl for AlgebraicVector<'v, T> {
    /// A product is known by the integers that its coordinates stand for,
    /// which the `ensures` of `mul` states; no vector is named as the product.
    open spec fn obeys_mul_spec() -> bool {
        false
    }

    /// Both vectors have a coordinate for each basis element of the algebra
    /// of `self`, that algebra has all its structure constants, and `T` can
    /// hold every intermediate result.
    open spec fn mul_req(self, rhs: Self) -> bool {
        let dim = self.algebra.dim as nat;
        &&& dim <= self@.len()
        &&& dim <= rhs@.len()
        &&& tensor_covers(self.algebra.tensor(), dim)
        &&& product_fits::<T>(self@, rhs@, self.algebra.tensor(), dim)
    }

    open spec fn mul_spec(self, rhs: Self) -> Self {
        arbitrary()
    }
}

impl<'v, T: Scalar> Mul for AlgebraicVector<'v, T> {
    type Output = Self;

    /// The product of the two vectors in the algebra of `self`: coordinate `i`
    /// is the sum of `self[j] * rhs[k] * p_tensor[i][j][k]` over all basis
    /// elements `j` and `k`. The running sum starts from `self[0] - self[0]`,
    /// which is zero.
    #[verifier::loop_isolation(false)]
    fn mul(self, rhs: Self) -> (product: Self)
        ensures
            product.algebra == self.algebra,
            product@ == vector_product(
                self@,
                rhs@,
                self.algebra.tensor(),
                self.algebra.dim as nat,
            ),
    {
        let ghost (a, b) = (self@, rhs@);
        let ghost tensor = self.algebra.tensor();
        let ghost dim = self.algebra.dim as nat;
        let mut result: Vec<T> = vec![];

        for i in 0..self.algebra.dim
            invariant
                result@.len() == i,
                forall|m: int|
                    0 <= m < i ==> (#[trigger] result@[m]).value() == product_coordinate(
                        a,
                        b,
                        tensor,
                        dim,
                        m,
                    ),
        {
            proof {
                T::lemma_zero_fits();
                T::lemma_difference(self.data@[0], self.data@[0]);
            }
            let mut sum: T = self.data[0] - self.data[0];
            for j in 0..self.algebra.dim
                invariant
                    sum.value() == plane_sum(a, b, tensor[i as int], dim, j as nat),
            {
                for k in 0..self.algebra.dim
                    invariant
                        sum.value() == plane_sum(a, b, tensor[i as int], dim, j as nat) + row_sum(
                            a,
                            b,
                            tensor[i as int],
                            j as int,
                            k as nat,
                        ),
                {
                    proof {
                        let x = self.data@[j as int];
                        let y = rhs.data@[k as int];
                        let c = self.algebra.p_tensor@[i as int]@[j as int]@[k as int];
                        assert(product_step_fits::<T>(
                            a,
                            b,
                            tensor,
                            dim,
                            i as int,
                            j as int,
                            k as int,
                        ));
                        assert(c.value() == tensor[i as int][j as int][k as int]);
                        T::lemma_product(x, y);
                        T::lemma_product(x.mul_spec(y), c);
                        T::lemma_sum(sum, x.mul_spec(y).mul_spec(c));
                    }
                    sum = sum + self.data[j] * rhs.data[k] * self.algebra.p_tensor[i][j][k];
                }
            }
            result.push(sum);
        }
        self.algebra.create_vector(result)
    }
}

} // verus!
