//! Shaped numeric buffers and the operations on them.

use crate::types::{additive, zero, zero_value, Accuracy};
use vstd::prelude::*;
use vstd::std_specs::ops::{AddSpec, MulSpec, SubSpec};

verus! {

/// The number of elements that a shape holds: the product of its dimensions.
/// The empty shape holds one element.
pub open spec fn shape_size(shape: Seq<usize>) -> nat
    decreases shape.len(),
{
    if shape.len() == 0 {
        1
    } else {
        shape_size(shape.drop_last()) * (shape.last() as nat)
    }
}

/// What a tensor is: its elements in row-major order, its dimensions and its
/// representation tag.
pub struct TensorView<T> {
    pub data: Seq<T>,
    pub shape: Seq<usize>,
    pub accuracy: Accuracy,
}

impl<T> TensorView<T> {
    /// The shape accounts for every element.
    pub open spec fn wf(self) -> bool {
        self.data.len() == shape_size(self.shape)
    }

    /// The number of dimensions.
    pub open spec fn rank(self) -> nat {
        self.shape.len()
    }

    /// The first dimension of a matrix.
    pub open spec fn rows(self) -> int
        recommends
            self.rank() == 2,
    {
        self.shape[0] as int
    }

    /// The second dimension of a matrix.
    pub open spec fn cols(self) -> int
        recommends
            self.rank() == 2,
    {
        self.shape[1] as int
    }

    /// The element in row `i` and column `j` of a matrix.
    pub open spec fn at(self, i: int, j: int) -> T
        recommends
            self.rank() == 2,
    {
        self.data[i * self.cols() + j]
    }
}

/// A shaped numeric buffer. A tensor is a value: no operation changes its
/// receiver.
pub struct Tensor<T> {
    data: Vec<T>,
    shape: Vec<usize>,
    size: usize,
    accuracy: Accuracy,
}

impl<T> View for Tensor<T> {
    type V = TensorView<T>;

    closed spec fn view(&self) -> TensorView<T> {
        TensorView { data: self.data@, shape: self.shape@, accuracy: self.accuracy }
    }
}

impl<T> Tensor<T> {
    /// The element count that the tensor records.
    pub closed spec fn count(&self) -> nat {
        self.size as nat
    }

    /// Holds of every tensor: the shape accounts for every element, and the
    /// recorded count is the number of elements.
    #[verifier::type_invariant]
    pub open spec fn inv(&self) -> bool {
        self@.wf() && self.count() == self@.data.len()
    }
}

/// A shape's size is the size of any prefix times the dimension that follows.
pub proof fn lemma_shape_size_step(shape: Seq<usize>, i: int)
    requires
        0 <= i < shape.len(),
    ensures
        shape_size(shape.take(i + 1)) == shape_size(shape.take(i)) * (shape[i] as nat),
{
    assert(shape.take(i + 1).drop_last() =~= shape.take(i));
}

/// A shape with a zero dimension holds no element.
pub proof fn lemma_shape_size_zero(shape: Seq<usize>, i: int)
    requires
        0 <= i < shape.len(),
        shape[i] == 0,
    ensures
        shape_size(shape) == 0,
    decreases shape.len(),
{
    if i < shape.len() - 1 {
        lemma_shape_size_zero(shape.drop_last(), i);
        assert(shape_size(shape.drop_last()) * (shape.last() as nat) == 0) by (nonlinear_arith)
            requires
                shape_size(shape.drop_last()) == 0,
        ;
    } else {
        assert(shape_size(shape.drop_last()) * (shape.last() as nat) == 0) by (nonlinear_arith)
            requires
                shape.last() as nat == 0,
        ;
    }
}

/// A matrix shape holds rows times columns elements.
pub proof fn lemma_shape_size_matrix(shape: Seq<usize>)
    requires
        shape.len() == 2,
    ensures
        shape_size(shape) == (shape[0] as nat) * (shape[1] as nat),
{
    let front = shape.drop_last();
    lemma_shape_size_vector(front);
}

/// A vector shape holds as many elements as its one dimension says.
pub proof fn lemma_shape_size_vector(shape: Seq<usize>)
    requires
        shape.len() == 1,
    ensures
        shape_size(shape) == shape[0] as nat,
{
    assert(shape_size(shape.drop_last()) == 1);
    assert(shape_size(shape) == 1 * (shape.last() as nat));
}

/// Whether `shape` holds exactly `len` elements.
pub fn shape_holds(shape: &Vec<usize>, len: usize) -> (r: bool)
    ensures
        r == (shape_size(shape@) == len),
{
    let mut i: usize = 0;
    while i < shape.len()
        invariant
            i <= shape.len(),
            forall|j: int| 0 <= j < i ==> shape[j] != 0,
        decreases shape.len() - i,
    {
        if shape[i] == 0 {
            proof {
                lemma_shape_size_zero(shape@, i as int);
            }
            return len == 0;
        }
        i += 1;
    }
    let mut product: usize = 1;
    let mut k: usize = 0;
    while k < shape.len()
        invariant
            k <= shape.len(),
            forall|j: int| 0 <= j < shape.len() ==> shape[j] != 0,
            product == shape_size(shape@.take(k as int)),
            product >= 1,
        decreases shape.len() - k,
    {
        proof {
            lemma_shape_size_step(shape@, k as int);
        }
        match product.checked_mul(shape[k]) {
            Some(next) => {
                assert(next >= 1) by (nonlinear_arith)
                    requires
                        next == product * shape[k as int],
                        product >= 1,
                        shape[k as int] >= 1,
                ;
                product = next;
            },
            None => {
                proof {
                    lemma_shape_size_grows(shape@, k as int + 1);
                }
                return false;
            },
        }
        k += 1;
    }
    assert(shape@.take(k as int) =~= shape@);
    product == len
}

/// With no zero dimension, a shape holds at least as many elements as any of
/// its prefixes.
pub proof fn lemma_shape_size_grows(shape: Seq<usize>, k: int)
    requires
        0 <= k <= shape.len(),
        forall|j: int| 0 <= j < shape.len() ==> shape[j] != 0,
    ensures
        shape_size(shape.take(k)) <= shape_size(shape),
    decreases shape.len() - k,
{
    if k == shape.len() {
        assert(shape.take(k) =~= shape);
    } else {
        lemma_shape_size_step(shape, k);
        lemma_shape_size_grows(shape, k + 1);
        assert(shape_size(shape.take(k)) <= shape_size(shape.take(k)) * (shape[k] as nat))
            by (nonlinear_arith)
            requires
                shape[k] as nat >= 1,
        ;
    }
}

impl<T: Copy> Tensor<T> {
    /// A tensor of the given elements, dimensions and representation.
    ///
    /// The shape must account for every element; `shape_holds` tests that.
    pub fn new(accuracy: Accuracy, data: Vec<T>, shape: Vec<usize>) -> (r: Self)
        requires
            shape_size(shape@) == data@.len(),
        ensures
            r@ == (TensorView { data: data@, shape: shape@, accuracy }),
    {
        let size = data.len();
        Tensor { data, shape, size, accuracy }
    }

    /// The dimensions.
    pub fn get_shape(&self) -> (r: &Vec<usize>)
        ensures
            r@ == self@.shape,
            self@.wf(),
    {
        proof {
            use_type_invariant(self);
        }
        &self.shape
    }

    /// The elements, in row-major order.
    pub fn get_data(&self) -> (r: &Vec<T>)
        ensures
            r@ == self@.data,
            self@.wf(),
    {
        proof {
            use_type_invariant(self);
        }
        &self.data
    }

    /// The number of elements: the product of the dimensions.
    pub fn get_size(&self) -> (r: usize)
        ensures
            r == self@.data.len(),
            r == shape_size(self@.shape),
    {
        proof {
            use_type_invariant(self);
        }
        self.size
    }

    /// The representation tag.
    pub fn get_accuracy(&self) -> (r: &Accuracy)
        ensures
            *r == self@.accuracy,
    {
        &self.accuracy
    }
}

impl<T: Copy> Clone for Tensor<T> {
    /// A full copy: the clone is the same tensor.
    fn clone(&self) -> (r: Self)
        ensures
            r@ == self@,
    {
        proof {
            use_type_invariant(self);
        }
        let mut data: Vec<T> = Vec::with_capacity(self.data.len());
        let mut i: usize = 0;
        while i < self.data.len()
            invariant
                i <= self.data.len(),
                data@ == self.data@.take(i as int),
            decreases self.data.len() - i,
        {
            data.push(self.data[i]);
            i += 1;
        }
        assert(self.data@.take(i as int) =~= self.data@);
        let shape = self.shape.clone();
        Tensor { data, shape, size: self.size, accuracy: self.accuracy }
    }
}

/// The value that `f` returns on `x`.
pub open spec fn apply<T, F: Fn(T) -> T>(f: F, x: T) -> T {
    choose|y: T| call_ensures(f, (x,), y)
}

/// `f` is a function of its argument: it returns one value on each input.
pub open spec fn single_valued<T, F: Fn(T) -> T>(f: F) -> bool {
    forall|x: T, y: T| call_ensures(f, (x,), y) ==> y == apply(f, x)
}

impl<T> TensorView<T> {
    /// The matrix with rows and columns exchanged: the element in row `j` and
    /// column `i` of the result is the one in row `i` and column `j` here.
    pub open spec fn transposed(self) -> TensorView<T>
        recommends
            self.rank() == 2,
    {
        TensorView {
            data: Seq::new(
                self.data.len(),
                |idx: int| self.data[(idx % self.rows()) * self.cols() + idx / self.rows()],
            ),
            shape: seq![self.shape[1], self.shape[0]],
            accuracy: self.accuracy,
        }
    }

    /// The tensor with `f` applied to every element.
    pub open spec fn mapped<F: Fn(T) -> T>(self, f: F) -> TensorView<T> {
        TensorView {
            data: Seq::new(self.data.len(), |i: int| apply(f, self.data[i])),
            shape: self.shape,
            accuracy: self.accuracy,
        }
    }

    /// `f` may be called on every element.
    pub open spec fn accepts<F: Fn(T) -> T>(self, f: F) -> bool {
        forall|i: int| 0 <= i < self.data.len() ==> call_requires(f, (#[trigger] self.data[i],))
    }

    /// `other` is a vector as long as this matrix's rows: it can be added to
    /// each of them.
    pub open spec fn broadcasts(self, other: TensorView<T>) -> bool {
        self.rank() == 2 && other.rank() == 1 && other.shape[0] == self.shape[1]
    }

    /// `other` can be added to this tensor: the two have one representation,
    /// and either one shape or the shapes of a matrix and of a vector as long
    /// as its rows.
    pub open spec fn fits_add(self, other: TensorView<T>) -> bool {
        self.accuracy == other.accuracy && (self.shape == other.shape || self.broadcasts(other))
    }

    /// This tensor and `other` can be subtracted or multiplied element by
    /// element: they have one representation and one shape.
    pub open spec fn fits_elementwise(self, other: TensorView<T>) -> bool {
        self.accuracy == other.accuracy && self.shape == other.shape
    }

    /// The matrix product with `other` exists: both are matrices of one
    /// representation, this one has as many columns as `other` has rows, and
    /// the product has a size that fits.
    pub open spec fn fits_matmul(self, other: TensorView<T>) -> bool {
        &&& self.rank() == 2
        &&& other.rank() == 2
        &&& self.shape[1] == other.shape[0]
        &&& self.accuracy == other.accuracy
        &&& self.shape[0] * other.shape[1] <= usize::MAX
    }

    /// The position in `other` of the element that is added to the element at
    /// `i` here: the same position when the shapes agree, the column of `i`
    /// when `other` is added to every row.
    pub open spec fn addend_index(self, other: TensorView<T>, i: int) -> int {
        if self.shape == other.shape {
            i
        } else {
            i % self.cols()
        }
    }
}

impl<T: Copy + core::ops::Add<Output = T> + core::ops::Mul<Output = T> + Default + core::ops::Sub<
    Output = T,
>> TensorView<T> {
    /// The sum with `other`: elementwise when the shapes agree, and with
    /// `other` added to every row when it is a vector as long as the rows.
    pub open spec fn added(self, other: TensorView<T>) -> TensorView<T> {
        TensorView {
            data: Seq::new(
                self.data.len(),
                |i: int| self.data[i].add_spec(other.data[self.addend_index(other, i)]),
            ),
            shape: self.shape,
            accuracy: self.accuracy,
        }
    }

    /// Every addition that `added` makes is one that `T` permits.
    pub open spec fn add_in_range(self, other: TensorView<T>) -> bool {
        &&& T::obeys_add_spec()
        &&& forall|i: int|
            0 <= i < self.data.len() ==> (#[trigger] self.data[i]).add_req(
                other.data[self.addend_index(other, i)],
            )
    }

    /// The elementwise difference.
    pub open spec fn subtracted(self, other: TensorView<T>) -> TensorView<T> {
        TensorView {
            data: Seq::new(self.data.len(), |i: int| self.data[i].sub_spec(other.data[i])),
            shape: self.shape,
            accuracy: self.accuracy,
        }
    }

    /// Every subtraction that `subtracted` makes is one that `T` permits.
    pub open spec fn sub_in_range(self, other: TensorView<T>) -> bool {
        &&& T::obeys_sub_spec()
        &&& forall|i: int|
            0 <= i < self.data.len() ==> (#[trigger] self.data[i]).sub_req(other.data[i])
    }

    /// The elementwise product.
    pub open spec fn multiplied(self, other: TensorView<T>) -> TensorView<T> {
        TensorView {
            data: Seq::new(self.data.len(), |i: int| self.data[i].mul_spec(other.data[i])),
            shape: self.shape,
            accuracy: self.accuracy,
        }
    }

    /// Every multiplication that `multiplied` makes is one that `T` permits.
    pub open spec fn mul_in_range(self, other: TensorView<T>) -> bool {
        &&& T::obeys_mul_spec()
        &&& forall|i: int|
            0 <= i < self.data.len() ==> (#[trigger] self.data[i]).mul_req(other.data[i])
    }

    /// Every element multiplied by `k`.
    pub open spec fn scaled(self, k: T) -> TensorView<T> {
        TensorView {
            data: Seq::new(self.data.len(), |i: int| self.data[i].mul_spec(k)),
            shape: self.shape,
            accuracy: self.accuracy,
        }
    }

    /// Every multiplication that `scaled` makes is one that `T` permits.
    pub open spec fn scale_in_range(self, k: T) -> bool {
        &&& T::obeys_mul_spec()
        &&& forall|i: int| 0 <= i < self.data.len() ==> (#[trigger] self.data[i]).mul_req(k)
    }
}

/// Whether two shapes are the same.
pub fn same_shape(a: &Vec<usize>, b: &Vec<usize>) -> (r: bool)
    ensures
        r == (a@ == b@),
{
    if a.len() != b.len() {
        return false;
    }
    let mut i: usize = 0;
    while i < a.len()
        invariant
            i <= a.len(),
            a.len() == b.len(),
            a@.take(i as int) == b@.take(i as int),
        decreases a.len() - i,
    {
        if a[i] != b[i] {
            return false;
        }
        i += 1;
    }
    assert(a@.take(i as int) =~= a@);
    assert(b@.take(i as int) =~= b@);
    true
}

impl<T: Copy + core::ops::Add<Output = T> + core::ops::Mul<Output = T> + Default + core::ops::Sub<
    Output = T,
>> Tensor<T> {
    /// The sum with `other`.
    ///
    /// The two must have the same representation, and either the same shape or
    /// the shapes of a matrix and of a vector as long as its rows; the vector
    /// is then added to every row.
    pub fn add(&self, other: &Tensor<T>) -> (r: Tensor<T>)
        requires
            self@.fits_add(other@),
            self@.add_in_range(other@),
        ensures
            r@ == self@.added(other@),
    {
        proof {
            use_type_invariant(self);
            use_type_invariant(other);
        }
        let mut sum: Vec<T> = Vec::with_capacity(self.data.len());
        if same_shape(&self.shape, &other.shape) {
            let mut i: usize = 0;
            while i < self.data.len()
                invariant
                    i <= self.data.len(),
                    self.data.len() == other.data.len(),
                    self@.shape == other@.shape,
                    self@.add_in_range(other@),
                    sum@.len() == i,
                    forall|j: int|
                        0 <= j < i ==> sum@[j] == self@.data[j].add_spec(#[trigger] other@.data[j]),
                decreases self.data.len() - i,
            {
                assert(self@.data[i as int].add_req(other@.data[i as int]));
                sum.push(self.data[i] + other.data[i]);
                i += 1;
            }
        } else {
            let batch_size = self.shape[0];
            let output_size = self.shape[1];
            proof {
                lemma_shape_size_matrix(self.shape@);
                lemma_shape_size_vector(other.shape@);
            }
            let mut i: usize = 0;
            while i < batch_size
                invariant
                    i <= batch_size,
                    self@.shape.len() == 2,
                    self@.shape != other@.shape,
                    batch_size == self@.shape[0],
                    output_size == self@.shape[1],
                    self.data.len() == batch_size * output_size,
                    other.data.len() == output_size,
                    self@.add_in_range(other@),
                    sum@.len() == i * output_size,
                    forall|k: int|
                        0 <= k < sum@.len() ==> #[trigger] sum@[k] == self@.data[k].add_spec(
                            other@.data[k % (output_size as int)],
                        ),
                decreases batch_size - i,
            {
                let mut j: usize = 0;
                while j < output_size
                    invariant
                        i < batch_size,
                        j <= output_size,
                        self@.shape.len() == 2,
                        self@.shape != other@.shape,
                        batch_size == self@.shape[0],
                        output_size == self@.shape[1],
                        self.data.len() == batch_size * output_size,
                        other.data.len() == output_size,
                        self@.add_in_range(other@),
                        sum@.len() == i * output_size + j,
                        forall|k: int|
                            0 <= k < sum@.len() ==> #[trigger] sum@[k] == self@.data[k].add_spec(
                                other@.data[k % (output_size as int)],
                            ),
                    decreases output_size - j,
                {
                    proof {
                        lemma_cell_index(i as int, j as int, batch_size as int, output_size as int);
                    }
                    let at = i * output_size + j;
                    assert(self@.data[at as int].add_req(other@.data[j as int]));
                    let a = self.data[at];
                    let b = other.data[j];
                    sum.push(a + b);
                    j += 1;
                }
                assert((i + 1) * output_size == i * output_size + output_size) by (nonlinear_arith);
                i += 1;
            }
        }
        let r = Tensor {
            data: sum,
            shape: self.shape.clone(),
            size: self.size,
            accuracy: self.accuracy,
        };
        assert(r@.data =~= self@.added(other@).data);
        r
    }

    /// The elementwise difference of two tensors of one representation and
    /// one shape.
    pub fn sub(&self, other: &Tensor<T>) -> (r: Tensor<T>)
        requires
            self@.fits_elementwise(other@),
            self@.sub_in_range(other@),
        ensures
            r@ == self@.subtracted(other@),
    {
        proof {
            use_type_invariant(self);
            use_type_invariant(other);
        }
        let mut diff: Vec<T> = Vec::with_capacity(self.data.len());
        let mut i: usize = 0;
        while i < self.data.len()
            invariant
                i <= self.data.len(),
                self.data.len() == other.data.len(),
                self@.sub_in_range(other@),
                diff@.len() == i,
                forall|j: int|
                    0 <= j < i ==> diff@[j] == self@.data[j].sub_spec(#[trigger] other@.data[j]),
            decreases self.data.len() - i,
        {
            assert(self@.data[i as int].sub_req(other@.data[i as int]));
            diff.push(self.data[i] - other.data[i]);
            i += 1;
        }
        let r = Tensor {
            data: diff,
            shape: self.shape.clone(),
            size: self.size,
            accuracy: self.accuracy,
        };
        assert(r@.data =~= self@.subtracted(other@).data);
        r
    }

    /// The elementwise product of two tensors of one representation and one
    /// shape.
    pub fn mul_elementswise(&self, other: &Tensor<T>) -> (r: Tensor<T>)
        requires
            self@.fits_elementwise(other@),
            self@.mul_in_range(other@),
        ensures
            r@ == self@.multiplied(other@),
    {
        proof {
            use_type_invariant(self);
            use_type_invariant(other);
        }
        let mut product: Vec<T> = Vec::with_capacity(self.data.len());
        let mut i: usize = 0;
        while i < self.data.len()
            invariant
                i <= self.data.len(),
                self.data.len() == other.data.len(),
                self@.mul_in_range(other@),
                product@.len() == i,
                forall|j: int|
                    0 <= j < i ==> product@[j] == self@.data[j].mul_spec(
                        #[trigger] other@.data[j],
                    ),
            decreases self.data.len() - i,
        {
            assert(self@.data[i as int].mul_req(other@.data[i as int]));
            product.push(self.data[i] * other.data[i]);
            i += 1;
        }
        let r = Tensor {
            data: product,
            shape: self.shape.clone(),
            size: self.size,
            accuracy: self.accuracy,
        };
        assert(r@.data =~= self@.multiplied(other@).data);
        r
    }

    /// Every element multiplied by `fact`.
    pub fn scale(&self, fact: T) -> (r: Tensor<T>)
        requires
            self@.scale_in_range(fact),
        ensures
            r@ == self@.scaled(fact),
    {
        proof {
            use_type_invariant(self);
        }
        let mut scaled: Vec<T> = Vec::with_capacity(self.data.len());
        let mut i: usize = 0;
        while i < self.data.len()
            invariant
                i <= self.data.len(),
                self@.scale_in_range(fact),
                scaled@.len() == i,
                forall|j: int| 0 <= j < i ==> #[trigger] scaled@[j] == self@.data[j].mul_spec(fact),
            decreases self.data.len() - i,
        {
            assert(self@.data[i as int].mul_req(fact));
            scaled.push(self.data[i] * fact);
            i += 1;
        }
        let r = Tensor {
            data: scaled,
            shape: self.shape.clone(),
            size: self.size,
            accuracy: self.accuracy,
        };
        assert(r@.data =~= self@.scaled(fact).data);
        r
    }

    /// The tensor with `func` applied to every element, in the same shape.
    pub fn map<F>(&self, func: F) -> (r: Tensor<T>) where F: Fn(T) -> T
        requires
            self@.accepts(func),
        ensures
            r@.shape == self@.shape,
            r@.accuracy == self@.accuracy,
            r@.data.len() == self@.data.len(),
            forall|i: int|
                0 <= i < self@.data.len() ==> call_ensures(func, (self@.data[i],), #[trigger] r@.data[i]),
            single_valued(func) ==> r@ == self@.mapped(func),
    {
        proof {
            use_type_invariant(self);
        }
        let mut mapped: Vec<T> = Vec::with_capacity(self.data.len());
        let mut i: usize = 0;
        while i < self.data.len()
            invariant
                i <= self.data.len(),
                self@.accepts(func),
                mapped@.len() == i,
                forall|j: int|
                    0 <= j < i ==> call_ensures(func, (self@.data[j],), #[trigger] mapped@[j]),
            decreases self.data.len() - i,
        {
            assert(call_requires(func, (self@.data[i as int],)));
            mapped.push(func(self.data[i]));
            i += 1;
        }
        let r = Tensor {
            data: mapped,
            shape: self.shape.clone(),
            size: self.size,
            accuracy: self.accuracy,
        };
        assert(single_valued(func) ==> r@.data =~= self@.mapped(func).data);
        r
    }

    /// The matrix with rows and columns exchanged.
    pub fn transpose(&self) -> (r: Tensor<T>)
        requires
            self@.rank() == 2,
        ensures
            r@ == self@.transposed(),
    {
        proof {
            use_type_invariant(self);
            lemma_shape_size_matrix(self.shape@);
        }
        let m = self.shape[0];
        let n = self.shape[1];
        let mut transposed: Vec<T> = Vec::with_capacity(self.data.len());
        let mut j: usize = 0;
        while j < n
            invariant
                j <= n,
                self@.rank() == 2,
                m == self@.shape[0],
                n == self@.shape[1],
                self.data.len() == m * n,
                transposed@.len() == j * m,
                forall|k: int|
                    0 <= k < transposed@.len() ==> #[trigger] transposed@[k] == self@.data[(k % (
                    m as int)) * n + k / (m as int)],
            decreases n - j,
        {
            let mut i: usize = 0;
            while i < m
                invariant
                    j < n,
                    i <= m,
                    self@.rank() == 2,
                    m == self@.shape[0],
                    n == self@.shape[1],
                    self.data.len() == m * n,
                    transposed@.len() == j * m + i,
                    forall|k: int|
                        0 <= k < transposed@.len() ==> #[trigger] transposed@[k] == self@.data[(k
                            % (m as int)) * n + k / (m as int)],
                decreases m - i,
            {
                proof {
                    lemma_cell_index(i as int, j as int, m as int, n as int);
                    lemma_cell_index(j as int, i as int, n as int, m as int);
                }
                transposed.push(self.data[i * n + j]);
                i += 1;
            }
            assert((j + 1) * m == j * m + m) by (nonlinear_arith);
            j += 1;
        }
        assert(n * m == m * n) by (nonlinear_arith);
        let mut shape: Vec<usize> = Vec::with_capacity(2);
        shape.push(n);
        shape.push(m);
        proof {
            lemma_shape_size_matrix(shape@);
        }
        let r = Tensor { data: transposed, shape, size: self.size, accuracy: self.accuracy };
        assert(r@.data =~= self@.transposed().data);
        assert(r@.shape =~= self@.transposed().shape);
        r
    }

    /// Whether `other` can be added to this tensor: the two have one
    /// representation, and either one shape or the shapes of a matrix and of
    /// a vector as long as its rows.
    pub fn can_add(&self, other: &Tensor<T>) -> (r: bool)
        ensures
            r == self@.fits_add(other@),
    {
        if self.accuracy != other.accuracy {
            return false;
        }
        if same_shape(&self.shape, &other.shape) {
            return true;
        }
        self.shape.len() == 2 && other.shape.len() == 1 && other.shape[0] == self.shape[1]
    }

    /// Whether this tensor and `other` can be subtracted or multiplied
    /// element by element: they have one representation and one shape.
    pub fn can_combine(&self, other: &Tensor<T>) -> (r: bool)
        ensures
            r == self@.fits_elementwise(other@),
    {
        self.accuracy == other.accuracy && same_shape(&self.shape, &other.shape)
    }

    /// Whether the matrix product with `other` exists: both are matrices of
    /// one representation, this one has as many columns as `other` has rows,
    /// and the product has a size that fits.
    pub fn can_matmul(&self, other: &Tensor<T>) -> (r: bool)
        ensures
            r == self@.fits_matmul(other@),
    {
        if self.shape.len() != 2 || other.shape.len() != 2 {
            return false;
        }
        if self.shape[1] != other.shape[0] || self.accuracy != other.accuracy {
            return false;
        }
        self.shape[0].checked_mul(other.shape[1]).is_some()
    }
}

/// Row `i` and column `j` of a matrix with `cols` columns stand at position
/// `i * cols + j`, which lies inside the matrix and gives `i` and `j` back by
/// division.
pub proof fn lemma_cell_index(i: int, j: int, rows: int, cols: int)
    requires
        0 <= i < rows,
        0 <= j < cols,
    ensures
        0 <= i * cols + j < rows * cols,
        (i * cols + j) / cols == i,
        (i * cols + j) % cols == j,
{
    assert(0 <= i * cols + j < rows * cols) by (nonlinear_arith)
        requires
            0 <= i < rows,
            0 <= j < cols,
    ;
    vstd::arithmetic::div_mod::lemma_fundamental_div_mod_converse(i * cols + j, cols, i, j);
}

/// The sum of the first `k` of `terms`, accumulated in order from zero.
pub open spec fn running_sum<T: Default + core::ops::Add<Output = T>>(terms: Seq<T>, k: nat) -> T
    decreases k,
{
    if k == 0 {
        zero::<T>()
    } else {
        running_sum(terms, (k - 1) as nat).add_spec(terms[k - 1])
    }
}

/// Every addition that `running_sum` makes over the first `k` of `terms` is
/// one that `T` permits.
pub open spec fn running_sum_in_range<T: Default + core::ops::Add<Output = T>>(
    terms: Seq<T>,
    k: nat,
) -> bool
    decreases k,
{
    k == 0 || (running_sum_in_range(terms, (k - 1) as nat) && running_sum(
        terms,
        (k - 1) as nat,
    ).add_req(terms[k - 1]))
}

/// A running sum that stays in range over `k` terms stays in range over fewer.
pub proof fn lemma_running_sum_prefix<T: Default + core::ops::Add<Output = T>>(
    terms: Seq<T>,
    j: nat,
    k: nat,
)
    requires
        j <= k,
        running_sum_in_range(terms, k),
    ensures
        running_sum_in_range(terms, j),
    decreases k,
{
    if j < k {
        lemma_running_sum_prefix(terms, j, (k - 1) as nat);
    }
}

impl<T: Copy + core::ops::Add<Output = T> + core::ops::Mul<Output = T> + Default + core::ops::Sub<
    Output = T,
>> TensorView<T> {
    /// Column `c` of a matrix, from the first row down.
    pub open spec fn column(self, c: int) -> Seq<T> {
        Seq::new(self.rows() as nat, |r: int| self.at(r, c))
    }

    /// Row `r` of a matrix, from the first column on.
    pub open spec fn row(self, r: int) -> Seq<T> {
        Seq::new(self.cols() as nat, |c: int| self.at(r, c))
    }

    /// The matrix collapsed along `axis`: along axis 0 the total of each
    /// column, along axis 1 the total of each row.
    pub open spec fn summed(self, axis: usize) -> TensorView<T> {
        if axis == 0 {
            TensorView {
                data: Seq::new(
                    self.cols() as nat,
                    |c: int| running_sum(self.column(c), self.rows() as nat),
                ),
                shape: seq![self.shape[1]],
                accuracy: self.accuracy,
            }
        } else {
            TensorView {
                data: Seq::new(
                    self.rows() as nat,
                    |r: int| running_sum(self.row(r), self.cols() as nat),
                ),
                shape: seq![self.shape[0]],
                accuracy: self.accuracy,
            }
        }
    }

    /// Every addition that `summed` makes is one that `T` permits.
    pub open spec fn sum_in_range(self, axis: usize) -> bool {
        &&& additive::<T>()
        &&& axis == 0 ==> forall|c: int|
            0 <= c < self.cols() ==> running_sum_in_range(
                #[trigger] self.column(c),
                self.rows() as nat,
            )
        &&& axis != 0 ==> forall|r: int|
            0 <= r < self.rows() ==> running_sum_in_range(
                #[trigger] self.row(r),
                self.cols() as nat,
            )
    }

    /// The total of all elements, as a tensor of shape `[1]`.
    pub open spec fn summed_all(self) -> TensorView<T> {
        TensorView {
            data: seq![running_sum(self.data, self.data.len())],
            shape: seq![1usize],
            accuracy: self.accuracy,
        }
    }

    /// Every addition that `summed_all` makes is one that `T` permits.
    pub open spec fn sum_all_in_range(self) -> bool {
        additive::<T>() && running_sum_in_range(self.data, self.data.len())
    }

    /// The products that make up the element in row `i` and column `j` of the
    /// matrix product with `other`.
    pub open spec fn products(self, other: TensorView<T>, i: int, j: int) -> Seq<T> {
        Seq::new(self.cols() as nat, |k: int| self.at(i, k).mul_spec(other.at(k, j)))
    }

    /// The matrix product with `other`: the element in row `i` and column `j`
    /// is the sum over `k` of this matrix's `(i, k)` times `other`'s `(k, j)`,
    /// accumulated in order from zero.
    pub open spec fn matmul(self, other: TensorView<T>) -> TensorView<T> {
        TensorView {
            data: Seq::new(
                (self.rows() * other.cols()) as nat,
                |idx: int|
                    running_sum(
                        self.products(other, idx / other.cols(), idx % other.cols()),
                        self.cols() as nat,
                    ),
            ),
            shape: seq![self.shape[0], other.shape[1]],
            accuracy: self.accuracy,
        }
    }

    /// Every multiplication and addition that goes into row `i` and column `j`
    /// of the matrix product is one that `T` permits.
    pub open spec fn cell_in_range(self, other: TensorView<T>, i: int, j: int) -> bool {
        &&& forall|k: int|
            0 <= k < self.cols() ==> (#[trigger] self.at(i, k)).mul_req(other.at(k, j))
        &&& running_sum_in_range(self.products(other, i, j), self.cols() as nat)
    }

    /// Every multiplication and addition that `matmul` makes is one that `T`
    /// permits.
    pub open spec fn matmul_in_range(self, other: TensorView<T>) -> bool {
        &&& additive::<T>()
        &&& T::obeys_mul_spec()
        &&& forall|i: int, j: int|
            0 <= i < self.rows() && 0 <= j < other.cols() ==> #[trigger] self.cell_in_range(
                other,
                i,
                j,
            )
    }
}

impl<T: Copy + core::ops::Add<Output = T> + core::ops::Mul<Output = T> + Default + core::ops::Sub<
    Output = T,
>> Tensor<T> {
    /// The matrix collapsed along `axis`: axis 0 gives the total of each
    /// column, axis 1 the total of each row.
    pub fn sum(&self, axis: usize) -> (r: Tensor<T>)
        requires
            self@.rank() == 2,
            axis <= 1,
            self@.sum_in_range(axis),
        ensures
            r@ == self@.summed(axis),
    {
        proof {
            use_type_invariant(self);
            lemma_shape_size_matrix(self.shape@);
        }
        let rows = self.shape[0];
        let cols = self.shape[1];
        let output_len = if axis == 0 {
            cols
        } else {
            rows
        };
        let z = zero_value::<T>();
        let mut result: Vec<T> = Vec::new();
        let mut n: usize = 0;
        while n < output_len
            invariant
                n <= output_len,
                result@.len() == n,
                forall|k: int| 0 <= k < n ==> result@[k] == z,
            decreases output_len - n,
        {
            result.push(z);
            n += 1;
        }
        if axis == 0 {
            let mut row: usize = 0;
            while row < rows
                invariant
                    row <= rows,
                    self@.rank() == 2,
                    rows == self@.shape[0],
                    cols == self@.shape[1],
                    self.data.len() == rows * cols,
                    axis == 0,
                    self@.sum_in_range(axis),
                    result@.len() == cols,
                    forall|c: int|
                        0 <= c < cols ==> #[trigger] result@[c] == running_sum(
                            self@.column(c),
                            row as nat,
                        ),
                decreases rows - row,
            {
                let mut col: usize = 0;
                while col < cols
                    invariant
                        row < rows,
                        col <= cols,
                        self@.rank() == 2,
                        rows == self@.shape[0],
                        cols == self@.shape[1],
                        self.data.len() == rows * cols,
                        axis == 0,
                        self@.sum_in_range(axis),
                        result@.len() == cols,
                        forall|c: int|
                            0 <= c < col ==> #[trigger] result@[c] == running_sum(
                                self@.column(c),
                                (row + 1) as nat,
                            ),
                        forall|c: int|
                            col <= c < cols ==> #[trigger] result@[c] == running_sum(
                                self@.column(c),
                                row as nat,
                            ),
                    decreases cols - col,
                {
                    proof {
                        lemma_cell_index(row as int, col as int, rows as int, cols as int);
                        lemma_running_sum_prefix(
                            self@.column(col as int),
                            (row + 1) as nat,
                            rows as nat,
                        );
                        assert(self@.column(col as int)[row as int] == self@.data[row * cols
                            + col]);
                    }
                    let idx = row * cols + col;
                    let next = result[col] + self.data[idx];
                    result.set(col, next);
                    col += 1;
                }
                row += 1;
            }
        } else {
            let mut row: usize = 0;
            while row < rows
                invariant
                    row <= rows,
                    self@.rank() == 2,
                    rows == self@.shape[0],
                    cols == self@.shape[1],
                    self.data.len() == rows * cols,
                    axis != 0,
                    self@.sum_in_range(axis),
                    z == zero::<T>(),
                    result@.len() == rows,
                    forall|r: int|
                        0 <= r < row ==> #[trigger] result@[r] == running_sum(
                            self@.row(r),
                            cols as nat,
                        ),
                    forall|r: int| row <= r < rows ==> #[trigger] result@[r] == z,
                decreases rows - row,
            {
                let mut col: usize = 0;
                while col < cols
                    invariant
                        row < rows,
                        col <= cols,
                        self@.rank() == 2,
                        rows == self@.shape[0],
                        cols == self@.shape[1],
                        self.data.len() == rows * cols,
                        axis != 0,
                        self@.sum_in_range(axis),
                        z == zero::<T>(),
                        result@.len() == rows,
                        forall|r: int|
                            0 <= r < row ==> #[trigger] result@[r] == running_sum(
                                self@.row(r),
                                cols as nat,
                            ),
                        result@[row as int] == running_sum(self@.row(row as int), col as nat),
                        forall|r: int| row < r < rows ==> #[trigger] result@[r] == z,
                    decreases cols - col,
                {
                    proof {
                        lemma_cell_index(row as int, col as int, rows as int, cols as int);
                        lemma_running_sum_prefix(
                            self@.row(row as int),
                            (col + 1) as nat,
                            cols as nat,
                        );
                    }
                    let idx = row * cols + col;
                    let next = result[row] + self.data[idx];
                    result.set(row, next);
                    col += 1;
                }
                row += 1;
            }
        }
        let mut output_shape: Vec<usize> = Vec::with_capacity(1);
        output_shape.push(output_len);
        proof {
            lemma_shape_size_vector(output_shape@);
        }
        let r = Tensor {
            data: result,
            shape: output_shape,
            size: output_len,
            accuracy: self.accuracy,
        };
        assert(r@.data =~= self@.summed(axis).data);
        r
    }

    /// The total of all elements, as a tensor of shape `[1]`.
    pub fn sum_all(&self) -> (r: Tensor<T>)
        requires
            self@.sum_all_in_range(),
        ensures
            r@ == self@.summed_all(),
    {
        let mut total = zero_value::<T>();
        let mut i: usize = 0;
        while i < self.data.len()
            invariant
                i <= self.data.len(),
                self@.sum_all_in_range(),
                total == running_sum(self@.data, i as nat),
            decreases self.data.len() - i,
        {
            proof {
                lemma_running_sum_prefix(self@.data, (i + 1) as nat, self@.data.len());
            }
            total = total + self.data[i];
            i += 1;
        }
        let mut data: Vec<T> = Vec::with_capacity(1);
        data.push(total);
        let mut shape: Vec<usize> = Vec::with_capacity(1);
        shape.push(1);
        proof {
            lemma_shape_size_vector(shape@);
        }
        let r = Tensor { data, shape, size: 1, accuracy: self.accuracy };
        r
    }

    /// The matrix product with `other`.
    ///
    /// Both must be matrices of one representation, with as many columns here
    /// as `other` has rows, and the result must have a size that fits.
    pub fn matmul(&self, other: &Tensor<T>) -> (r: Tensor<T>)
        requires
            self@.fits_matmul(other@),
            self@.matmul_in_range(other@),
        ensures
            r@ == self@.matmul(other@),
            r@.shape == seq![self@.shape[0], other@.shape[1]],
            r@.data.len() == self@.shape[0] * other@.shape[1],
            r@.accuracy == self@.accuracy,
    {
        proof {
            use_type_invariant(self);
            use_type_invariant(other);
            lemma_shape_size_matrix(self.shape@);
            lemma_shape_size_matrix(other.shape@);
        }
        let m = self.shape[0];
        let n = self.shape[1];
        let p = other.shape[1];
        let z = zero_value::<T>();
        let mut result_data: Vec<T> = Vec::new();
        let mut i: usize = 0;
        while i < m
            invariant
                i <= m,
                self@.rank() == 2,
                other@.rank() == 2,
                m == self@.shape[0],
                n == self@.shape[1],
                n == other@.shape[0],
                p == other@.shape[1],
                self.data.len() == m * n,
                other.data.len() == n * p,
                m * p <= usize::MAX,
                self@.matmul_in_range(other@),
                z == zero::<T>(),
                result_data@.len() == i * p,
                forall|idx: int|
                    0 <= idx < result_data@.len() ==> #[trigger] result_data@[idx] == running_sum(
                        self@.products(other@, idx / (p as int), idx % (p as int)),
                        n as nat,
                    ),
            decreases m - i,
        {
            let mut j: usize = 0;
            while j < p
                invariant
                    i < m,
                    j <= p,
                    self@.rank() == 2,
                    other@.rank() == 2,
                    m == self@.shape[0],
                    n == self@.shape[1],
                    n == other@.shape[0],
                    p == other@.shape[1],
                    self.data.len() == m * n,
                    other.data.len() == n * p,
                    m * p <= usize::MAX,
                    self@.matmul_in_range(other@),
                    z == zero::<T>(),
                    result_data@.len() == i * p + j,
                    forall|idx: int|
                        0 <= idx < result_data@.len() ==> #[trigger] result_data@[idx]
                            == running_sum(
                            self@.products(other@, idx / (p as int), idx % (p as int)),
                            n as nat,
                        ),
                decreases p - j,
            {
                let ghost terms = self@.products(other@, i as int, j as int);
                let mut sum = z;
                let mut k: usize = 0;
                while k < n
                    invariant
                        i < m,
                        j < p,
                        k <= n,
                        self@.rank() == 2,
                        other@.rank() == 2,
                        m == self@.shape[0],
                        n == self@.shape[1],
                        n == other@.shape[0],
                        p == other@.shape[1],
                        self.data.len() == m * n,
                        other.data.len() == n * p,
                        self@.matmul_in_range(other@),
                        self@.cell_in_range(other@, i as int, j as int),
                        terms == self@.products(other@, i as int, j as int),
                        sum == running_sum(terms, k as nat),
                    decreases n - k,
                {
                    proof {
                        lemma_cell_index(i as int, k as int, m as int, n as int);
                        lemma_cell_index(k as int, j as int, n as int, p as int);
                        lemma_running_sum_prefix(terms, (k + 1) as nat, n as nat);
                    }
                    let a = self.data[i * n + k];
                    let b = other.data[k * p + j];
                    sum = sum + (a * b);
                    k += 1;
                }
                proof {
                    lemma_cell_index(i as int, j as int, m as int, p as int);
                }
                result_data.push(sum);
                j += 1;
            }
            assert((i + 1) * p == i * p + p) by (nonlinear_arith);
            i += 1;
        }
        let mut shape: Vec<usize> = Vec::with_capacity(2);
        shape.push(m);
        shape.push(p);
        proof {
            lemma_shape_size_matrix(shape@);
        }
        let r = Tensor { data: result_data, shape, size: m * p, accuracy: self.accuracy };
        assert(r@.data =~= self@.matmul(other@).data);
        assert(r@.shape =~= self@.matmul(other@).shape);
        r
    }
}

} // verus!
