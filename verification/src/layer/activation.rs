//! Activation maps: stateless functions applied to every element of a layer's
//! output.

use crate::tensor::{single_valued, TensorView};
use crate::types::{default_fixed, zero, zero_value};
use core::cmp::Ordering;
use vstd::prelude::*;
use vstd::std_specs::cmp::PartialOrdSpec;

verus! {

/// A tensor after an optional activation: every element mapped where there is
/// one, the tensor itself where there is none.
pub open spec fn activated<T, F: Fn(T) -> T>(z: TensorView<T>, activation: Option<F>) -> TensorView<
    T,
> {
    match activation {
        Some(f) => z.mapped(f),
        None => z,
    }
}

/// An activation, where there is one, is a function of its argument that may
/// be called on every element of `z`.
pub open spec fn activation_fits<T, F: Fn(T) -> T>(z: TensorView<T>, activation: Option<F>) -> bool {
    activation matches Some(f) ==> z.accepts(f) && single_valued(f)
}

/// What `relu` makes of `x`: `x` itself where it is greater than zero, and
/// zero elsewhere.
pub open spec fn relu_value<T: PartialOrd + Default>(x: T) -> T {
    if x.partial_cmp_spec(&zero::<T>()) == Some(Ordering::Greater) {
        x
    } else {
        zero::<T>()
    }
}

/// The rectifier: `x` where it is greater than zero, zero elsewhere.
pub fn relu<T>(x: T) -> (r: T) where T: Copy + PartialOrd + Default
    ensures
        r == x || call_ensures(T::default, (), r),
        T::obeys_partial_cmp_spec() && default_fixed::<T>() ==> r == relu_value(x),
{
    let z = zero_value::<T>();
    if x > z {
        x
    } else {
        z
    }
}

/// Where comparison and `T::default()` are functions of their operands, the
/// rectifier is a function of its argument.
pub proof fn lemma_relu_single_valued<T: Copy + PartialOrd + Default>()
    requires
        T::obeys_partial_cmp_spec(),
        default_fixed::<T>(),
    ensures
        single_valued(relu::<T>),
        forall|x: T, y: T| call_ensures(relu::<T>, (x,), y) ==> y == relu_value(x),
{
}

} // verus!
