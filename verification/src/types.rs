//! Numeric representations and what the engine asks of an element type.

use vstd::prelude::*;
use vstd::std_specs::ops::{AddSpec, MulSpec, SubSpec};

verus! {

/// The numeric representation that a tensor's elements are stored in.
///
/// Every tensor carries exactly one tag, and two tensors can only be combined
/// when their tags agree.
#[derive(Clone, Copy, Debug, PartialEq, Eq, Structural)]
pub enum Accuracy {
    U8,
    I8,
    F16,
    F32,
}

/// An element type that can supply an initial value for a weight.
///
/// The policy is the implementor's own: the engine asks for one value per
/// weight and assumes nothing about it.
pub trait Randomizable: Sized {
    /// One initial weight.
    fn random_weight() -> Self;
}

/// An element type that can stand for a number of elements, as the divisor of
/// a mean does.
///
/// A verified implementor says which element stands for which count, and
/// which counts it can represent. Left as they are here, the two say that
/// every count can be represented, and nothing of the element.
pub trait FromCount: Sized {
    /// The element that stands for `n`.
    open spec fn count_spec(n: usize) -> Self {
        arbitrary()
    }

    /// Whether `n` can be represented.
    open spec fn count_req(n: usize) -> bool {
        true
    }

    /// Whether `n` can be represented.
    fn can_count(n: usize) -> (r: bool)
        ensures
            r == Self::count_req(n),
    ;

    /// The element that stands for `n`.
    fn from_count(n: usize) -> (r: Self)
        requires
            Self::count_req(n),
        ensures
            r == Self::count_spec(n),
    ;
}

impl FromCount for u8 {
    open spec fn count_spec(n: usize) -> u8 {
        n as u8
    }

    open spec fn count_req(n: usize) -> bool {
        n <= u8::MAX
    }

    fn can_count(n: usize) -> (r: bool) {
        n <= 255
    }

    fn from_count(n: usize) -> (r: u8) {
        n as u8
    }
}

impl FromCount for i8 {
    open spec fn count_spec(n: usize) -> i8 {
        n as i8
    }

    open spec fn count_req(n: usize) -> bool {
        n <= i8::MAX
    }

    fn can_count(n: usize) -> (r: bool) {
        n <= 127
    }

    fn from_count(n: usize) -> (r: i8) {
        n as i8
    }
}

/// The additive identity of an element type: the value that `T::default()`
/// returns.
pub open spec fn zero<T: Default>() -> T {
    choose|z: T| call_ensures(T::default, (), z)
}

/// `T::default()` always returns the same value.
pub open spec fn default_fixed<T: Default>() -> bool {
    forall|a: T, b: T|
        call_ensures(T::default, (), a) && call_ensures(T::default, (), b) ==> a == b
}

/// Addition on `T` is a function of its operands, and so is `T::default()`.
pub open spec fn additive<T: Default + core::ops::Add<Output = T>>() -> bool {
    T::obeys_add_spec() && default_fixed::<T>()
}

/// Zero behaves as a zero does: a value less itself is zero, a product with
/// zero is zero, and zero plus zero is zero.
///
/// This holds of the integers. It does not hold of a floating-point
/// representation on every value: an infinity less itself is no number.
pub open spec fn zero_cancels<T: Default + core::ops::Add<Output = T> + core::ops::Sub<Output = T>
    + core::ops::Mul<Output = T>>() -> bool {
    &&& forall|x: T| #[trigger] x.sub_spec(x) == zero::<T>()
    &&& forall|x: T| #[trigger] x.mul_spec(zero::<T>()) == zero::<T>()
    &&& forall|x: T| #[trigger] zero::<T>().mul_spec(x) == zero::<T>()
    &&& zero::<T>().add_spec(zero::<T>()) == zero::<T>()
}

/// The additive identity, as a value.
pub fn zero_value<T: Default>() -> (z: T)
    ensures
        call_ensures(T::default, (), z),
        call_ensures(T::default, (), zero::<T>()),
        default_fixed::<T>() ==> z == zero::<T>(),
{
    T::default()
}

} // verus!
