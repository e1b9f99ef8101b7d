//! Identities that the tensor operations satisfy.

use crate::tensor::{lemma_cell_index, lemma_shape_size_matrix, running_sum, TensorView};
use crate::types::{zero, zero_cancels};
use vstd::prelude::*;
use vstd::std_specs::ops::AddSpec;

verus! {

impl<T> TensorView<T> {
    /// Every element is zero.
    pub open spec fn is_zero(self) -> bool where T: Default {
        forall|i: int| 0 <= i < self.data.len() ==> #[trigger] self.data[i] == zero::<T>()
    }
}

/// Two tensors of different representations can be combined by no
/// operation: each of `add`, `sub`, `mul_elementswise` and `matmul` asks for
/// what this rules out, whatever the shapes.
pub proof fn lemma_tags_must_agree<T>(a: TensorView<T>, b: TensorView<T>)
    requires
        a.accuracy != b.accuracy,
    ensures
        !a.fits_add(b),
        !a.fits_elementwise(b),
        !a.fits_matmul(b),
{
}

/// There is no matrix product of two tensors unless both are matrices and
/// the first has as many columns as the second has rows.
pub proof fn lemma_matmul_needs_aligned_matrices<T>(a: TensorView<T>, b: TensorView<T>)
    requires
        a.rank() != 2 || b.rank() != 2 || a.shape[1] != b.shape[0],
    ensures
        !a.fits_matmul(b),
{
}

/// Only tensors of one shape can be subtracted or multiplied element by
/// element: a vector is not spread over the rows of a matrix as it is in
/// addition.
pub proof fn lemma_elementwise_needs_one_shape<T>(a: TensorView<T>, b: TensorView<T>)
    requires
        a.shape != b.shape,
    ensures
        !a.fits_elementwise(b),
{
}

/// Transposing a matrix twice gives the matrix back: the same elements in
/// the same order, the same shape, the same representation.
pub proof fn lemma_transpose_twice<T>(t: TensorView<T>)
    requires
        t.wf(),
        t.rank() == 2,
    ensures
        t.transposed().transposed() == t,
{
    let m = t.rows();
    let n = t.cols();
    let once = t.transposed();
    let twice = once.transposed();
    lemma_shape_size_matrix(t.shape);
    assert(twice.shape =~= t.shape);
    assert forall|idx: int| 0 <= idx < t.data.len() implies twice.data[idx] == t.data[idx] by {
        assert(n > 0 && m > 0) by (nonlinear_arith)
            requires
                0 <= idx < m * n,
                m >= 0,
                n >= 0,
        ;
        let q = idx / n;
        let r = idx % n;
        vstd::arithmetic::div_mod::lemma_fundamental_div_mod(idx, n);
        assert(0 <= q < m) by (nonlinear_arith)
            requires
                idx == n * q + r,
                0 <= r < n,
                0 <= idx < m * n,
        ;
        lemma_cell_index(r, q, n, m);
        assert(q * n + r == idx) by (nonlinear_arith)
            requires
                idx == n * q + r,
        ;
    }
    assert(twice.data =~= t.data);
}

/// The product of two matrices has the rows of the first and the columns of
/// the second, and its shape accounts for every element.
pub proof fn lemma_matmul_shape<T>(a: TensorView<T>, b: TensorView<T>) where
    T: Copy + core::ops::Add<Output = T> + core::ops::Mul<Output = T> + Default + core::ops::Sub<
        Output = T,
    >,

    requires
        a.rank() == 2,
        b.rank() == 2,
    ensures
        a.matmul(b).shape == seq![a.shape[0], b.shape[1]],
        a.matmul(b).data.len() == a.rows() * b.cols(),
        a.matmul(b).wf(),
{
    lemma_shape_size_matrix(a.matmul(b).shape);
    assert(a.rows() * b.cols() >= 0) by (nonlinear_arith)
        requires
            a.rows() >= 0,
            b.cols() >= 0,
    ;
}

/// A running sum of zeros is zero.
pub proof fn lemma_running_sum_of_zeros<T>(terms: Seq<T>, k: nat) where
    T: Default + core::ops::Add<Output = T>,

    requires
        k <= terms.len(),
        forall|i: int| 0 <= i < k ==> terms[i] == zero::<T>(),
        zero::<T>().add_spec(zero::<T>()) == zero::<T>(),
    ensures
        running_sum(terms, k) == zero::<T>(),
    decreases k,
{
    if k > 0 {
        lemma_running_sum_of_zeros(terms, (k - 1) as nat);
    }
}

/// A matrix times a zero matrix is a zero matrix, in the shape of the
/// product.
pub proof fn lemma_matmul_by_zero<T>(a: TensorView<T>, b: TensorView<T>) where
    T: Copy + core::ops::Add<Output = T> + core::ops::Mul<Output = T> + Default + core::ops::Sub<
        Output = T,
    >,

    requires
        a.wf(),
        b.wf(),
        a.rank() == 2,
        b.rank() == 2,
        a.shape[1] == b.shape[0],
        b.is_zero(),
        zero_cancels::<T>(),
    ensures
        a.matmul(b).is_zero(),
        a.matmul(b).shape == seq![a.shape[0], b.shape[1]],
{
    let n = a.cols();
    let p = b.cols();
    let product = a.matmul(b);
    lemma_shape_size_matrix(b.shape);
    assert forall|idx: int| 0 <= idx < product.data.len() implies #[trigger] product.data[idx]
        == zero::<T>() by {
        assert(p > 0) by (nonlinear_arith)
            requires
                0 <= idx < a.rows() * p,
                a.rows() >= 0,
                p >= 0,
        ;
        let i = idx / p;
        let j = idx % p;
        vstd::arithmetic::div_mod::lemma_fundamental_div_mod(idx, p);
        let terms = a.products(b, i, j);
        assert forall|k: int| 0 <= k < n implies terms[k] == zero::<T>() by {
            lemma_cell_index(k, j, n, p);
        }
        lemma_running_sum_of_zeros(terms, n as nat);
    }
}

/// A zero matrix times a matrix is a zero matrix, in the shape of the
/// product.
pub proof fn lemma_zero_matmul<T>(a: TensorView<T>, b: TensorView<T>) where
    T: Copy + core::ops::Add<Output = T> + core::ops::Mul<Output = T> + Default + core::ops::Sub<
        Output = T,
    >,

    requires
        a.wf(),
        b.wf(),
        a.rank() == 2,
        b.rank() == 2,
        a.shape[1] == b.shape[0],
        a.is_zero(),
        zero_cancels::<T>(),
    ensures
        a.matmul(b).is_zero(),
        a.matmul(b).shape == seq![a.shape[0], b.shape[1]],
{
    let m = a.rows();
    let n = a.cols();
    let p = b.cols();
    let product = a.matmul(b);
    lemma_shape_size_matrix(a.shape);
    assert forall|idx: int| 0 <= idx < product.data.len() implies #[trigger] product.data[idx]
        == zero::<T>() by {
        assert(p > 0) by (nonlinear_arith)
            requires
                0 <= idx < m * p,
                m >= 0,
                p >= 0,
        ;
        let i = idx / p;
        let j = idx % p;
        vstd::arithmetic::div_mod::lemma_fundamental_div_mod(idx, p);
        assert(0 <= i < m) by (nonlinear_arith)
            requires
                idx == p * i + j,
                0 <= j < p,
                0 <= idx < m * p,
        ;
        let terms = a.products(b, i, j);
        assert forall|k: int| 0 <= k < n implies terms[k] == zero::<T>() by {
            lemma_cell_index(i, k, m, n);
        }
        lemma_running_sum_of_zeros(terms, n as nat);
    }
}

/// Adding two tensors of one shape adds them element by element.
pub proof fn lemma_added_same_shape<T>(a: TensorView<T>, b: TensorView<T>, i: int) where
    T: Copy + core::ops::Add<Output = T> + core::ops::Mul<Output = T> + Default + core::ops::Sub<
        Output = T,
    >,

    requires
        a.shape == b.shape,
        0 <= i < a.data.len(),
    ensures
        a.added(b).shape == a.shape,
        a.added(b).data.len() == a.data.len(),
        a.added(b).data[i] == a.data[i].add_spec(b.data[i]),
{
}

/// Adding a vector to a matrix with rows of its length adds it to every row:
/// the element in row `i` and column `j` of the sum is the matrix's element
/// there plus the vector's element `j`.
pub proof fn lemma_added_to_every_row<T>(a: TensorView<T>, bias: TensorView<T>, i: int, j: int) where
    T: Copy + core::ops::Add<Output = T> + core::ops::Mul<Output = T> + Default + core::ops::Sub<
        Output = T,
    >,

    requires
        a.wf(),
        a.broadcasts(bias),
        0 <= i < a.rows(),
        0 <= j < a.cols(),
    ensures
        a.added(bias).shape == a.shape,
        a.added(bias).at(i, j) == a.at(i, j).add_spec(bias.data[j]),
{
    lemma_shape_size_matrix(a.shape);
    lemma_cell_index(i, j, a.rows(), a.cols());
}

/// Collapsing a matrix along axis 0 leaves one total for each column, and
/// along axis 1 one total for each row; each total adds its column or row up
/// in order from zero.
pub proof fn lemma_summed_totals<T>(a: TensorView<T>) where
    T: Copy + core::ops::Add<Output = T> + core::ops::Mul<Output = T> + Default + core::ops::Sub<
        Output = T,
    >,

    requires
        a.rank() == 2,
    ensures
        a.summed(0).shape == seq![a.shape[1]],
        a.summed(0).wf(),
        forall|c: int|
            0 <= c < a.cols() ==> #[trigger] a.summed(0).data[c] == running_sum(
                a.column(c),
                a.rows() as nat,
            ),
        a.summed(1).shape == seq![a.shape[0]],
        a.summed(1).wf(),
        forall|r: int|
            0 <= r < a.rows() ==> #[trigger] a.summed(1).data[r] == running_sum(
                a.row(r),
                a.cols() as nat,
            ),
{
    crate::tensor::lemma_shape_size_vector(a.summed(0).shape);
    crate::tensor::lemma_shape_size_vector(a.summed(1).shape);
}

} // verus!
