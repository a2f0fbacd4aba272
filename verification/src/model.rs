//! The arithmetic of vectors, stated on sequences of integers.
//!
//! A vector is modelled by the integers that its coordinates stand for, and the
//! structure constants of an algebra by a three-fold sequence `tensor`, where
//! `tensor[i][j][k]` says how much of basis element `i` the product of basis
//! elements `j` and `k` holds.

use crate::scalar::Scalar;
use vstd::prelude::*;

verus! {

/// The sum of two vectors of dimension `dim`: coordinate `i` is `a[i] + b[i]`.
pub open spec fn vector_sum(a: Seq<int>, b: Seq<int>, dim: nat) -> Seq<int> {
    Seq::new(dim, |i: int| a[i] + b[i])
}

/// The vector `a` after `b` was added to its first `dim` coordinates, the other
/// coordinates of `a` being kept.
pub open spec fn vector_increased(a: Seq<int>, b: Seq<int>, dim: nat) -> Seq<int> {
    Seq::new(
        a.len(),
        |i: int|
            if i < dim {
                a[i] + b[i]
            } else {
                a[i]
            },
    )
}

/// The vector `a` with every coordinate multiplied by `s`.
pub open spec fn vector_scaled(s: int, a: Seq<int>) -> Seq<int> {
    Seq::new(a.len(), |i: int| s * a[i])
}

/// What the pair of coordinates `a[j]`, `b[k]` adds to one coordinate of the
/// product, `plane` holding the structure constants of that coordinate.
pub open spec fn term(a: Seq<int>, b: Seq<int>, plane: Seq<Seq<int>>, j: int, k: int) -> int {
    a[j] * b[k] * plane[j][k]
}

/// The sum of `term(a, b, plane, j, k)` over `0 <= k < n`.
pub open spec fn row_sum(a: Seq<int>, b: Seq<int>, plane: Seq<Seq<int>>, j: int, n: nat) -> int
    decreases n,
{
    if n == 0 {
        0
    } else {
        row_sum(a, b, plane, j, (n - 1) as nat) + term(a, b, plane, j, n - 1)
    }
}

/// The sum of `term(a, b, plane, j, k)` over `0 <= j < m` and `0 <= k < dim`.
pub open spec fn plane_sum(
    a: Seq<int>,
    b: Seq<int>,
    plane: Seq<Seq<int>>,
    dim: nat,
    m: nat,
) -> int
    decreases m,
{
    if m == 0 {
        0
    } else {
        plane_sum(a, b, plane, dim, (m - 1) as nat) + row_sum(a, b, plane, m - 1, dim)
    }
}

/// Coordinate `i` of the product of `a` and `b`: the sum of
/// `a[j] * b[k] * tensor[i][j][k]` over all `j` and `k` below `dim`.
pub open spec fn product_coordinate(
    a: Seq<int>,
    b: Seq<int>,
    tensor: Seq<Seq<Seq<int>>>,
    dim: nat,
    i: int,
) -> int {
    plane_sum(a, b, tensor[i], dim, dim)
}

/// The product of `a` and `b` in the algebra of dimension `dim` with structure
/// constants `tensor`.
pub open spec fn vector_product(
    a: Seq<int>,
    b: Seq<int>,
    tensor: Seq<Seq<Seq<int>>>,
    dim: nat,
) -> Seq<int> {
    Seq::new(dim, |i: int| product_coordinate(a, b, tensor, dim, i))
}

/// Whether `tensor` has an entry at every `[i][j][k]` with `i`, `j`, `k` below
/// `dim`.
pub open spec fn tensor_covers(tensor: Seq<Seq<Seq<int>>>, dim: nat) -> bool {
    &&& dim <= tensor.len()
    &&& forall|i: int| 0 <= i < dim ==> dim <= (#[trigger] tensor[i]).len()
    &&& forall|i: int, j: int|
        0 <= i < dim && 0 <= j < dim ==> dim <= (#[trigger] tensor[i][j]).len()
}

/// Whether each of the first `dim` coordinates of the sum of `a` and `b` fits
/// the scalar type `T`.
pub open spec fn sum_fits<T: Scalar>(a: Seq<int>, b: Seq<int>, dim: nat) -> bool {
    forall|i: int| #![trigger a[i]] 0 <= i < dim ==> T::fits(a[i] + b[i])
}

/// Whether the scalar type `T` can hold what the product computes for the
/// triple `(i, j, k)`: the product of the two coordinates, the term, and the
/// sum of the terms of coordinate `i` up to and including this one, taken row
/// by row.
pub open spec fn product_step_fits<T: Scalar>(
    a: Seq<int>,
    b: Seq<int>,
    tensor: Seq<Seq<Seq<int>>>,
    dim: nat,
    i: int,
    j: int,
    k: int,
) -> bool {
    &&& T::fits(a[j] * b[k])
    &&& T::fits(term(a, b, tensor[i], j, k))
    &&& T::fits(
        plane_sum(a, b, tensor[i], dim, j as nat) + row_sum(a, b, tensor[i], j, (k + 1) as nat),
    )
}

/// Whether the scalar type `T` can hold every intermediate result of the
/// product of `a` and `b`.
pub open spec fn product_fits<T: Scalar>(
    a: Seq<int>,
    b: Seq<int>,
    tensor: Seq<Seq<Seq<int>>>,
    dim: nat,
) -> bool {
    forall|i: int, j: int, k: int|
        0 <= i < dim && 0 <= j < dim && 0 <= k < dim ==> #[trigger] product_step_fits::<T>(
            a,
            b,
            tensor,
            dim,
            i,
            j,
            k,
        )
}

} // verus!
