//! The mean squared error.

use crate::algebra::lemma_running_sum_of_zeros;
use crate::loss::Loss;
use crate::tensor::{lemma_shape_size_vector, running_sum, Tensor, TensorView};
use crate::types::{zero, FromCount};
use vstd::prelude::*;
use vstd::std_specs::ops::{AddSpec, DivSpec, MulSpec, SubSpec};

verus! {

/// The mean of the squared differences between a prediction and its target.
pub struct MeanSquaredError;

impl<T: core::ops::Div<Output = T>> TensorView<T> {
    /// Every element divided by `k`.
    pub open spec fn divided(self, k: T) -> TensorView<T> {
        TensorView {
            data: Seq::new(self.data.len(), |i: int| self.data[i].div_spec(k)),
            shape: self.shape,
            accuracy: self.accuracy,
        }
    }

    /// Every division that `divided` makes is one that `T` permits.
    pub open spec fn div_in_range(self, k: T) -> bool {
        &&& T::obeys_div_spec()
        &&& forall|i: int| 0 <= i < self.data.len() ==> (#[trigger] self.data[i]).div_req(k)
    }
}

/// The sum of the squared differences between `pred` and `target`, added up
/// in order from zero.
pub open spec fn squared_error<T>(pred: TensorView<T>, target: TensorView<T>) -> T where
    T: Copy + Default + core::ops::Add<Output = T> + core::ops::Sub<Output = T> + core::ops::Mul<
        Output = T,
    >,
 {
    let error = pred.subtracted(target);
    running_sum(error.multiplied(error).data, error.data.len())
}

/// Every element of `t` divided by `k`.
fn divide<T>(t: &Tensor<T>, k: T) -> (r: Tensor<T>) where T: Copy + core::ops::Div<Output = T>
    requires
        t@.div_in_range(k),
    ensures
        r@ == t@.divided(k),
{
    let data = t.get_data();
    let mut quotients: Vec<T> = Vec::with_capacity(data.len());
    let mut i: usize = 0;
    while i < data.len()
        invariant
            i <= data.len(),
            data@ == t@.data,
            t@.div_in_range(k),
            quotients@.len() == i,
            forall|j: int| 0 <= j < i ==> #[trigger] quotients@[j] == t@.data[j].div_spec(k),
        decreases data.len() - i,
    {
        assert(t@.data[i as int].div_req(k));
        quotients.push(data[i] / k);
        i += 1;
    }
    let r = Tensor::new(*t.get_accuracy(), quotients, t.get_shape().clone());
    assert(r@.data =~= t@.divided(k).data);
    r
}

impl<T> Loss<T> for MeanSquaredError where
    T: Copy + Default + core::ops::Add<Output = T> + core::ops::Sub<Output = T> + core::ops::Mul<
        Output = T,
    > + core::ops::Div<Output = T> + FromCount,
 {
    /// The two tensors have one shape and one representation, the number of
    /// elements can be represented, and `T` permits every operation on the
    /// way to the mean.
    open spec fn forward_defined(&self, pred: TensorView<T>, target: TensorView<T>) -> bool {
        let error = pred.subtracted(target);
        let n = pred.data.len() as usize;
        &&& pred.shape == target.shape
        &&& pred.accuracy == target.accuracy
        &&& pred.sub_in_range(target)
        &&& error.mul_in_range(error)
        &&& error.multiplied(error).sum_all_in_range()
        &&& T::obeys_div_spec()
        &&& T::count_req(n)
        &&& squared_error(pred, target).div_req(T::count_spec(n))
    }

    /// The sum of the squared differences, divided by the number of
    /// elements.
    open spec fn value(&self, pred: TensorView<T>, target: TensorView<T>) -> TensorView<T> {
        TensorView {
            data: seq![
                squared_error(pred, target).div_spec(T::count_spec(pred.data.len() as usize)),
            ],
            shape: seq![1usize],
            accuracy: pred.accuracy,
        }
    }

    /// The two tensors have one shape and one representation, two and the
    /// number of elements can be represented, and `T` permits every
    /// operation on the way to the gradient.
    open spec fn backward_defined(&self, pred: TensorView<T>, target: TensorView<T>) -> bool {
        let error = pred.subtracted(target);
        let n = pred.data.len() as usize;
        &&& pred.shape == target.shape
        &&& pred.accuracy == target.accuracy
        &&& pred.sub_in_range(target)
        &&& T::count_req(2)
        &&& T::count_req(n)
        &&& error.scale_in_range(T::count_spec(2))
        &&& error.scaled(T::count_spec(2)).div_in_range(T::count_spec(n))
    }

    /// Each difference times two, divided by the number of elements.
    open spec fn gradient(&self, pred: TensorView<T>, target: TensorView<T>) -> TensorView<T> {
        pred.subtracted(target).scaled(T::count_spec(2)).divided(
            T::count_spec(pred.data.len() as usize),
        )
    }

    fn forward(&self, pred: &Tensor<T>, target: &Tensor<T>) -> (r: Tensor<T>) {
        let error = pred.sub(target);
        let squared = error.mul_elementswise(&error);
        let sum = squared.sum_all();
        let n = T::from_count(pred.get_size());
        let mean = sum.get_data()[0] / n;
        let mut data: Vec<T> = Vec::with_capacity(1);
        data.push(mean);
        let mut shape: Vec<usize> = Vec::with_capacity(1);
        shape.push(1);
        proof {
            lemma_shape_size_vector(shape@);
        }
        let r = Tensor::new(*pred.get_accuracy(), data, shape);
        assert(r@.data =~= self.value(pred@, target@).data);
        assert(r@.shape =~= seq![1usize]);
        r
    }

    fn backward(&self, pred: &Tensor<T>, target: &Tensor<T>) -> (r: Tensor<T>) {
        let error = pred.sub(target);
        let doubled = error.scale(T::from_count(2));
        divide(&doubled, T::from_count(pred.get_size()))
    }
}

/// Arithmetic on `target` goes as on finite numbers: each element less itself
/// is zero, and zero stays zero when it is squared, added to itself, doubled
/// or divided by the number of elements.
///
/// This holds of a tensor of integers with at least one element. It does not
/// hold where an element is an infinity or no number, nor where the tensor is
/// empty.
pub open spec fn cancels<T>(target: TensorView<T>) -> bool where
    T: Copy + Default + core::ops::Add<Output = T> + core::ops::Sub<Output = T> + core::ops::Mul<
        Output = T,
    > + core::ops::Div<Output = T> + FromCount,
 {
    let n = T::count_spec(target.data.len() as usize);
    &&& forall|i: int|
        0 <= i < target.data.len() ==> (#[trigger] target.data[i]).sub_spec(target.data[i])
            == zero::<T>()
    &&& zero::<T>().mul_spec(zero::<T>()) == zero::<T>()
    &&& zero::<T>().add_spec(zero::<T>()) == zero::<T>()
    &&& zero::<T>().mul_spec(T::count_spec(2)) == zero::<T>()
    &&& zero::<T>().div_spec(n) == zero::<T>()
}

/// A prediction that equals its target has no error: the loss is zero, and
/// so is every element of its gradient, which has the prediction's shape.
pub proof fn lemma_loss_of_target<T>(target: TensorView<T>) where
    T: Copy + Default + core::ops::Add<Output = T> + core::ops::Sub<Output = T> + core::ops::Mul<
        Output = T,
    > + core::ops::Div<Output = T> + FromCount,

    requires
        cancels(target),
    ensures
        MeanSquaredError.value(target, target).data == seq![zero::<T>()],
        MeanSquaredError.value(target, target).shape == seq![1usize],
        MeanSquaredError.value(target, target).accuracy == target.accuracy,
        MeanSquaredError.gradient(target, target).is_zero(),
        MeanSquaredError.gradient(target, target).shape == target.shape,
        MeanSquaredError.gradient(target, target).accuracy == target.accuracy,
        MeanSquaredError.gradient(target, target).data.len() == target.data.len(),
{
    let error = target.subtracted(target);
    let squared = error.multiplied(error);
    assert(error.is_zero());
    assert(squared.is_zero());
    lemma_running_sum_of_zeros(squared.data, squared.data.len());
    assert(squared_error(target, target) == zero::<T>());
    assert(MeanSquaredError.value(target, target).data =~= seq![zero::<T>()]);
}

/// Every tensor of 8-bit signed integers with at least one element, and no
/// more than the representation can count, cancels. Zero is the integer 0
/// here, which `zero_value` shows.
pub proof fn lemma_signed_integers_cancel(target: TensorView<i8>)
    requires
        zero::<i8>() == 0,
        1 <= target.data.len() <= i8::MAX,
    ensures
        cancels(target),
{
}

/// Every tensor of 8-bit unsigned integers with at least one element, and no
/// more than the representation can count, cancels. Zero is the integer 0
/// here, which `zero_value` shows.
pub proof fn lemma_unsigned_integers_cancel(target: TensorView<u8>)
    requires
        zero::<u8>() == 0,
        1 <= target.data.len() <= u8::MAX,
    ensures
        cancels(target),
{
}

} // verus!
