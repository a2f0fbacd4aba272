//! Laws of the vector arithmetic, proved of the integers that vectors stand
//! for.

use crate::algebra::Algebra;
use crate::model::{
    plane_sum, product_coordinate, row_sum, term, vector_increased, vector_product, vector_scaled,
    vector_sum,
};
use core::ops::Mul;
use vstd::prelude::*;

verus! {

/// Addition of vectors is commutative: `a + b == b + a`.
pub proof fn lemma_sum_commutative(a: Seq<int>, b: Seq<int>, dim: nat)
    ensures
        vector_sum(a, b, dim) == vector_sum(b, a, dim),
{
    assert(vector_sum(a, b, dim) =~= vector_sum(b, a, dim));
}

/// Addition of vectors is associative: `(a + b) + c == a + (b + c)`.
pub proof fn lemma_sum_associative(a: Seq<int>, b: Seq<int>, c: Seq<int>, dim: nat)
    ensures
        vector_sum(vector_sum(a, b, dim), c, dim) == vector_sum(a, vector_sum(b, c, dim), dim),
{
    assert(vector_sum(vector_sum(a, b, dim), c, dim) =~= vector_sum(
        a,
        vector_sum(b, c, dim),
        dim,
    ));
}

/// What `a += b` leaves in `a`, against what `a + b` returns: the first `dim`
/// coordinates are those of the sum and the coordinates beyond them are kept,
/// so for a vector of exactly `dim` coordinates the two are equal.
pub proof fn lemma_increase_is_sum(a: Seq<int>, b: Seq<int>, dim: nat)
    requires
        dim <= a.len(),
    ensures
        vector_increased(a, b, dim).take(dim as int) == vector_sum(a, b, dim),
        vector_increased(a, b, dim).skip(dim as int) == a.skip(dim as int),
        a.len() == dim ==> vector_increased(a, b, dim) == vector_sum(a, b, dim),
{
    assert(vector_increased(a, b, dim).take(dim as int) =~= vector_sum(a, b, dim));
    assert(vector_increased(a, b, dim).skip(dim as int) =~= a.skip(dim as int));
    if a.len() == dim {
        assert(vector_increased(a, b, dim) =~= vector_sum(a, b, dim));
    }
}

/// The vector that `create_vector` makes from `data` has `data[i]` as its
/// coordinate `i`.
pub proof fn lemma_index_after_create<'v, T: Copy + Mul>(
    algebra: Algebra<'v, T>,
    data: Vec<T>,
    i: int,
)
    requires
        0 <= i < data@.len(),
    ensures
        algebra.create_vector(data)[i] == data@[i],
{
}

/// A row of terms that are `s` times the terms of another row sums to `s`
/// times its sum.
proof fn lemma_row_sum_scaled(
    s: int,
    a: Seq<int>,
    b: Seq<int>,
    a_s: Seq<int>,
    b_s: Seq<int>,
    plane: Seq<Seq<int>>,
    j: int,
    n: nat,
)
    requires
        forall|k: int|
            0 <= k < n ==> #[trigger] term(a_s, b_s, plane, j, k) == s * term(a, b, plane, j, k),
    ensures
        row_sum(a_s, b_s, plane, j, n) == s * row_sum(a, b, plane, j, n),
    decreases n,
{
    if n > 0 {
        lemma_row_sum_scaled(s, a, b, a_s, b_s, plane, j, (n - 1) as nat);
        let rest = row_sum(a, b, plane, j, (n - 1) as nat);
        let last = term(a, b, plane, j, n - 1);
        assert(term(a_s, b_s, plane, j, n - 1) == s * last);
        assert(s * rest + s * last == s * (rest + last)) by (nonlinear_arith);
    }
}

/// Rows of terms that are `s` times the terms of other rows sum to `s` times
/// their sum.
proof fn lemma_plane_sum_scaled(
    s: int,
    a: Seq<int>,
    b: Seq<int>,
    a_s: Seq<int>,
    b_s: Seq<int>,
    plane: Seq<Seq<int>>,
    dim: nat,
    m: nat,
)
    requires
        forall|j: int, k: int|
            0 <= j < m && 0 <= k < dim ==> #[trigger] term(a_s, b_s, plane, j, k) == s * term(
                a,
                b,
                plane,
                j,
                k,
            ),
    ensures
        plane_sum(a_s, b_s, plane, dim, m) == s * plane_sum(a, b, plane, dim, m),
    decreases m,
{
    if m > 0 {
        lemma_plane_sum_scaled(s, a, b, a_s, b_s, plane, dim, (m - 1) as nat);
        lemma_row_sum_scaled(s, a, b, a_s, b_s, plane, m - 1, dim);
        let rest = plane_sum(a, b, plane, dim, (m - 1) as nat);
        let last = row_sum(a, b, plane, m - 1, dim);
        assert(s * rest + s * last == s * (rest + last)) by (nonlinear_arith);
    }
}

/// A row of terms that are each the sum of two terms, one of either of two
/// other rows, sums to the sum of the two rows' sums.
proof fn lemma_row_sum_added(
    a: Seq<int>,
    b: Seq<int>,
    a1: Seq<int>,
    b1: Seq<int>,
    a2: Seq<int>,
    b2: Seq<int>,
    plane: Seq<Seq<int>>,
    j: int,
    n: nat,
)
    requires
        forall|k: int|
            0 <= k < n ==> #[trigger] term(a, b, plane, j, k) == term(a1, b1, plane, j, k) + term(
                a2,
                b2,
                plane,
                j,
                k,
            ),
    ensures
        row_sum(a, b, plane, j, n) == row_sum(a1, b1, plane, j, n) + row_sum(a2, b2, plane, j, n),
    decreases n,
{
    if n > 0 {
        lemma_row_sum_added(a, b, a1, b1, a2, b2, plane, j, (n - 1) as nat);
        assert(term(a, b, plane, j, n - 1) == term(a1, b1, plane, j, n - 1) + term(
            a2,
            b2,
            plane,
            j,
            n - 1,
        ));
    }
}

/// Rows of terms that are each the sum of two terms, one of either of two
/// other families of rows, sum to the sum of the two families' sums.
proof fn lemma_plane_sum_added(
    a: Seq<int>,
    b: Seq<int>,
    a1: Seq<int>,
    b1: Seq<int>,
    a2: Seq<int>,
    b2: Seq<int>,
    plane: Seq<Seq<int>>,
    dim: nat,
    m: nat,
)
    requires
        forall|j: int, k: int|
            0 <= j < m && 0 <= k < dim ==> #[trigger] term(a, b, plane, j, k) == term(
                a1,
                b1,
                plane,
                j,
                k,
            ) + term(a2, b2, plane, j, k),
    ensures
        plane_sum(a, b, plane, dim, m) == plane_sum(a1, b1, plane, dim, m) + plane_sum(
            a2,
            b2,
            plane,
            dim,
            m,
        ),
    decreases m,
{
    if m > 0 {
        lemma_plane_sum_added(a, b, a1, b1, a2, b2, plane, dim, (m - 1) as nat);
        lemma_row_sum_added(a, b, a1, b1, a2, b2, plane, m - 1, dim);
    }
}

/// Scaling the first factor by `s` scales the product by `s`:
/// `scaled(s, a) * b == scaled(s, a * b)`.
pub proof fn lemma_product_scales_left(
    s: int,
    a: Seq<int>,
    b: Seq<int>,
    tensor: Seq<Seq<Seq<int>>>,
    dim: nat,
)
    requires
        dim <= a.len(),
    ensures
        vector_product(vector_scaled(s, a), b, tensor, dim) == vector_scaled(
            s,
            vector_product(a, b, tensor, dim),
        ),
{
    let a_s = vector_scaled(s, a);
    assert forall|i: int| 0 <= i < dim implies product_coordinate(a_s, b, tensor, dim, i) == s
        * product_coordinate(a, b, tensor, dim, i) by {
        let plane = tensor[i];
        assert forall|j: int, k: int| 0 <= j < dim && 0 <= k < dim implies #[trigger] term(
            a_s,
            b,
            plane,
            j,
            k,
        ) == s * term(a, b, plane, j, k) by {
            let (x, y, c) = (a[j], b[k], plane[j][k]);
            assert((s * x) * y * c == s * (x * y * c)) by (nonlinear_arith);
        }
        lemma_plane_sum_scaled(s, a, b, a_s, b, plane, dim, dim);
    }
    assert(vector_product(a_s, b, tensor, dim) =~= vector_scaled(
        s,
        vector_product(a, b, tensor, dim),
    ));
}

/// Scaling the second factor by `s` scales the product by `s`:
/// `a * scaled(s, b) == scaled(s, a * b)`.
pub proof fn lemma_product_scales_right(
    s: int,
    a: Seq<int>,
    b: Seq<int>,
    tensor: Seq<Seq<Seq<int>>>,
    dim: nat,
)
    requires
        dim <= b.len(),
    ensures
        vector_product(a, vector_scaled(s, b), tensor, dim) == vector_scaled(
            s,
            vector_product(a, b, tensor, dim),
        ),
{
    let b_s = vector_scaled(s, b);
    assert forall|i: int| 0 <= i < dim implies product_coordinate(a, b_s, tensor, dim, i) == s
        * product_coordinate(a, b, tensor, dim, i) by {
        let plane = tensor[i];
        assert forall|j: int, k: int| 0 <= j < dim && 0 <= k < dim implies #[trigger] term(
            a,
            b_s,
            plane,
            j,
            k,
        ) == s * term(a, b, plane, j, k) by {
            let (x, y, c) = (a[j], b[k], plane[j][k]);
            assert(x * (s * y) * c == s * (x * y * c)) by (nonlinear_arith);
        }
        lemma_plane_sum_scaled(s, a, b, a, b_s, plane, dim, dim);
    }
    assert(vector_product(a, b_s, tensor, dim) =~= vector_scaled(
        s,
        vector_product(a, b, tensor, dim),
    ));
}

/// The product distributes over a sum in its first factor:
/// `(a1 + a2) * b == a1 * b + a2 * b`.
pub proof fn lemma_product_distributes_left(
    a1: Seq<int>,
    a2: Seq<int>,
    b: Seq<int>,
    tensor: Seq<Seq<Seq<int>>>,
    dim: nat,
)
    ensures
        vector_product(vector_sum(a1, a2, dim), b, tensor, dim) == vector_sum(
            vector_product(a1, b, tensor, dim),
            vector_product(a2, b, tensor, dim),
            dim,
        ),
{
    let a = vector_sum(a1, a2, dim);
    assert forall|i: int| 0 <= i < dim implies product_coordinate(a, b, tensor, dim, i)
        == product_coordinate(a1, b, tensor, dim, i) + product_coordinate(
        a2,
        b,
        tensor,
        dim,
        i,
    ) by {
        let plane = tensor[i];
        assert forall|j: int, k: int| 0 <= j < dim && 0 <= k < dim implies #[trigger] term(
            a,
            b,
            plane,
            j,
            k,
        ) == term(a1, b, plane, j, k) + term(a2, b, plane, j, k) by {
            let (x1, x2, y, c) = (a1[j], a2[j], b[k], plane[j][k]);
            assert((x1 + x2) * y * c == x1 * y * c + x2 * y * c) by (nonlinear_arith);
        }
        lemma_plane_sum_added(a, b, a1, b, a2, b, plane, dim, dim);
    }
    assert(vector_product(a, b, tensor, dim) =~= vector_sum(
        vector_product(a1, b, tensor, dim),
        vector_product(a2, b, tensor, dim),
        dim,
    ));
}

/// The product distributes over a sum in its second factor:
/// `a * (b1 + b2) == a * b1 + a * b2`.
pub proof fn lemma_product_distributes_right(
    a: Seq<int>,
    b1: Seq<int>,
    b2: Seq<int>,
    tensor: Seq<Seq<Seq<int>>>,
    dim: nat,
)
    ensures
        vector_product(a, vector_sum(b1, b2, dim), tensor, dim) == vector_sum(
            vector_product(a, b1, tensor, dim),
            vector_product(a, b2, tensor, dim),
            dim,
        ),
{
    let b = vector_sum(b1, b2, dim);
    assert forall|i: int| 0 <= i < dim implies product_coordinate(a, b, tensor, dim, i)
        == product_coordinate(a, b1, tensor, dim, i) + product_coordinate(
        a,
        b2,
        tensor,
        dim,
        i,
    ) by {
        let plane = tensor[i];
        assert forall|j: int, k: int| 0 <= j < dim && 0 <= k < dim implies #[trigger] term(
            a,
            b,
            plane,
            j,
            k,
        ) == term(a, b1, plane, j, k) + term(a, b2, plane, j, k) by {
            let (x, y1, y2, c) = (a[j], b1[k], b2[k], plane[j][k]);
            assert(x * (y1 + y2) * c == x * y1 * c + x * y2 * c) by (nonlinear_arith);
        }
        lemma_plane_sum_added(a, b, a, b1, a, b2, plane, dim, dim);
    }
    assert(vector_product(a, b, tensor, dim) =~= vector_sum(
        vector_product(a, b1, tensor, dim),
        vector_product(a, b2, tensor, dim),
        dim,
    ));
}

/// Whether the structure constants stay the same when the two factors' basis
/// elements are swapped: `tensor[i][j][k] == tensor[i][k][j]`.
pub open spec fn tensor_symmetric(tensor: Seq<Seq<Seq<int>>>, dim: nat) -> bool {
    forall|i: int, j: int, k: int|
        0 <= i < dim && 0 <= j < dim && 0 <= k < dim ==> #[trigger] tensor[i][j][k]
            == tensor[i][k][j]
}

/// With the factors swapped, one more term in each of `n` rows adds up to
/// row `m` of the unswapped factors.
proof fn lemma_plane_sum_widened(
    a: Seq<int>,
    b: Seq<int>,
    plane: Seq<Seq<int>>,
    m: nat,
    n: nat,
)
    requires
        forall|k: int| 0 <= k < n ==> #[trigger] plane[k][m as int] == plane[m as int][k],
    ensures
        plane_sum(b, a, plane, m + 1, n) == plane_sum(b, a, plane, m, n) + row_sum(
            a,
            b,
            plane,
            m as int,
            n,
        ),
    decreases n,
{
    if n > 0 {
        lemma_plane_sum_widened(a, b, plane, m, (n - 1) as nat);
        let (x, y, c) = (a[m as int], b[n - 1], plane[m as int][n - 1]);
        assert(plane[n - 1][m as int] == c);
        assert(y * x * c == x * y * c) by (nonlinear_arith);
        assert(term(b, a, plane, n - 1, m as int) == term(a, b, plane, m as int, n - 1));
        assert(row_sum(b, a, plane, n - 1, m + 1) == row_sum(b, a, plane, n - 1, m) + term(
            b,
            a,
            plane,
            n - 1,
            m as int,
        ));
    }
}

/// Summing `m` rows of `n` terms gives what summing `n` rows of `m` terms
/// gives with the factors swapped, where the constants allow the swap.
proof fn lemma_plane_sum_swapped(
    a: Seq<int>,
    b: Seq<int>,
    plane: Seq<Seq<int>>,
    m: nat,
    n: nat,
)
    requires
        forall|j: int, k: int|
            0 <= j < m && 0 <= k < n ==> #[trigger] plane[k][j] == #[trigger] plane[j][k],
    ensures
        plane_sum(a, b, plane, n, m) == plane_sum(b, a, plane, m, n),
    decreases m, n,
{
    if m == 0 {
        if n > 0 {
            lemma_plane_sum_swapped(a, b, plane, 0, (n - 1) as nat);
        }
    } else {
        lemma_plane_sum_swapped(a, b, plane, (m - 1) as nat, n);
        lemma_plane_sum_widened(a, b, plane, (m - 1) as nat, n);
    }
}

/// Where the structure constants are symmetric in the two factors, the
/// product is commutative: `a * b == b * a`.
pub proof fn lemma_product_commutative(
    a: Seq<int>,
    b: Seq<int>,
    tensor: Seq<Seq<Seq<int>>>,
    dim: nat,
)
    requires
        tensor_symmetric(tensor, dim),
    ensures
        vector_product(a, b, tensor, dim) == vector_product(b, a, tensor, dim),
{
    assert forall|i: int| 0 <= i < dim implies product_coordinate(a, b, tensor, dim, i)
        == product_coordinate(b, a, tensor, dim, i) by {
        let plane = tensor[i];
        assert forall|j: int, k: int| 0 <= j < dim && 0 <= k < dim implies #[trigger] plane[k][j]
            == #[trigger] plane[j][k] by {
            assert(tensor[i][k][j] == tensor[i][j][k]);
        }
        lemma_plane_sum_swapped(a, b, plane, dim, dim);
    }
    assert(vector_product(a, b, tensor, dim) =~= vector_product(b, a, tensor, dim));
}

} // verus!
