use littleflow::layer::activation::relu;
use littleflow::tensor::{same_shape, shape_holds, Tensor};
use littleflow::types::{zero_value, Accuracy, FromCount};

fn matrix(data: Vec<f32>, rows: usize, cols: usize) -> Tensor<f32> {
    Tensor::new(Accuracy::F32, data, vec![rows, cols])
}

#[test]
fn new_keeps_data_shape_and_tag() {
    let t = Tensor::new(Accuracy::F32, vec![1.0f32, 2.0, 3.0, 4.0, 5.0, 6.0], vec![2, 3]);
    assert_eq!(t.get_data(), &vec![1.0, 2.0, 3.0, 4.0, 5.0, 6.0]);
    assert_eq!(t.get_shape(), &vec![2usize, 3]);
    assert_eq!(t.get_size(), 6);
    assert!(*t.get_accuracy() == Accuracy::F32);
}

#[test]
fn shape_holds_compares_product_with_length() {
    assert!(shape_holds(&vec![2, 3], 6));
    assert!(!shape_holds(&vec![2, 3], 5));
    assert!(shape_holds(&vec![4], 4));
    assert!(shape_holds(&vec![2, 2, 2], 8));
    assert!(!shape_holds(&vec![2, 2, 2], 6));
}

#[test]
fn shape_holds_on_the_empty_shape() {
    assert!(shape_holds(&vec![], 1));
    assert!(!shape_holds(&vec![], 0));
}

#[test]
fn shape_holds_with_a_zero_dimension() {
    assert!(shape_holds(&vec![3, 0], 0));
    assert!(shape_holds(&vec![0, 3], 0));
    assert!(!shape_holds(&vec![3, 0], 3));
    assert!(shape_holds(&vec![usize::MAX, 2, 0], 0));
}

#[test]
fn shape_holds_when_the_product_does_not_fit() {
    assert!(!shape_holds(&vec![usize::MAX, 2], usize::MAX));
    assert!(!shape_holds(&vec![usize::MAX, usize::MAX], 1));
    assert!(shape_holds(&vec![usize::MAX, 1], usize::MAX));
}

#[test]
fn same_shape_compares_every_dimension() {
    assert!(same_shape(&vec![2, 3], &vec![2, 3]));
    assert!(!same_shape(&vec![2, 3], &vec![3, 2]));
    assert!(!same_shape(&vec![2, 3], &vec![2]));
    assert!(same_shape(&vec![], &vec![]));
}

#[test]
fn clone_is_a_full_copy() {
    let t = Tensor::new(Accuracy::U8, vec![7u8, 8, 9], vec![3]);
    let c = t.clone();
    assert_eq!(c.get_data(), t.get_data());
    assert_eq!(c.get_shape(), t.get_shape());
    assert_eq!(c.get_size(), 3);
    assert!(*c.get_accuracy() == Accuracy::U8);
}

#[test]
fn transpose_exchanges_rows_and_columns() {
    let t = Tensor::new(Accuracy::I8, vec![1i32, 2, 3, 4, 5, 6], vec![2, 3]);
    let r = t.transpose();
    assert_eq!(r.get_shape(), &vec![3usize, 2]);
    assert_eq!(r.get_data(), &vec![1, 4, 2, 5, 3, 6]);
    assert_eq!(r.get_size(), 6);
}

#[test]
fn transpose_twice_gives_the_tensor_back() {
    let t = matrix(vec![1.0, 2.0, 3.0, 4.0, 5.0, 6.0], 2, 3);
    let back = t.transpose().transpose();
    assert_eq!(back.get_shape(), t.get_shape());
    assert_eq!(back.get_data(), t.get_data());
    assert_eq!(back.get_size(), t.get_size());
    assert!(*back.get_accuracy() == *t.get_accuracy());
}

#[test]
fn transpose_of_an_empty_matrix() {
    let t = matrix(vec![], 0, 3);
    let r = t.transpose();
    assert_eq!(r.get_shape(), &vec![3usize, 0]);
    assert!(r.get_data().is_empty());
    let back = r.transpose();
    assert_eq!(back.get_shape(), &vec![0usize, 3]);
}

#[test]
fn matmul_has_rows_of_first_and_columns_of_second() {
    let a = matrix(vec![1.0, 2.0, 3.0, 4.0, 5.0, 6.0], 2, 3);
    let b = matrix(vec![7.0, 8.0, 9.0, 10.0, 11.0, 12.0], 3, 2);
    let c = a.matmul(&b);
    assert_eq!(c.get_shape(), &vec![2usize, 2]);
    assert_eq!(c.get_data(), &vec![58.0, 64.0, 139.0, 154.0]);
    assert_eq!(c.get_size(), 4);
    assert!(*c.get_accuracy() == Accuracy::F32);
}

#[test]
fn matmul_of_a_row_and_a_column() {
    let a = Tensor::new(Accuracy::I8, vec![1i32, 2], vec![1, 2]);
    let b = Tensor::new(Accuracy::I8, vec![3i32, 4], vec![2, 1]);
    let c = a.matmul(&b);
    assert_eq!(c.get_shape(), &vec![1usize, 1]);
    assert_eq!(c.get_data(), &vec![11]);
}

#[test]
fn matmul_by_a_zero_matrix_is_zero() {
    let a = matrix(vec![1.0, 2.0, 3.0, 4.0, 5.0, 6.0], 2, 3);
    let z = matrix(vec![0.0; 12], 3, 4);
    let c = a.matmul(&z);
    assert_eq!(c.get_shape(), &vec![2usize, 4]);
    assert_eq!(c.get_data(), &vec![0.0; 8]);
    let zl = matrix(vec![0.0; 8], 4, 2);
    let d = zl.matmul(&a);
    assert_eq!(d.get_shape(), &vec![4usize, 3]);
    assert_eq!(d.get_data(), &vec![0.0; 12]);
}

#[test]
fn matmul_by_the_identity_gives_the_matrix_back() {
    let a = matrix(vec![1.0, 2.0, 3.0, 4.0, 5.0, 6.0], 2, 3);
    let id = matrix(vec![1.0, 0.0, 0.0, 0.0, 1.0, 0.0, 0.0, 0.0, 1.0], 3, 3);
    let c = a.matmul(&id);
    assert_eq!(c.get_shape(), a.get_shape());
    assert_eq!(c.get_data(), a.get_data());
}

#[test]
fn matmul_with_no_inner_dimension_is_all_zero() {
    let a = matrix(vec![], 2, 0);
    let b = matrix(vec![], 0, 3);
    let c = a.matmul(&b);
    assert_eq!(c.get_shape(), &vec![2usize, 3]);
    assert_eq!(c.get_data(), &vec![0.0; 6]);
}

#[test]
fn matmul_shape_mismatch_is_detected() {
    let a = matrix(vec![0.0; 6], 2, 3);
    let b = matrix(vec![0.0; 20], 4, 5);
    assert!(!a.can_matmul(&b));
    let c = matrix(vec![0.0; 12], 3, 4);
    assert!(a.can_matmul(&c));
    let v = Tensor::new(Accuracy::F32, vec![0.0f32; 3], vec![3]);
    assert!(!a.can_matmul(&v));
    assert!(!v.can_matmul(&a));
}

#[test]
fn add_broadcasts_a_bias_to_every_row() {
    let a = matrix(vec![1.0, 2.0, 3.0, 4.0, 5.0, 6.0], 2, 3);
    let bias = Tensor::new(Accuracy::F32, vec![10.0f32, 20.0, 30.0], vec![3]);
    assert!(a.can_add(&bias));
    let c = a.add(&bias);
    assert_eq!(c.get_shape(), &vec![2usize, 3]);
    assert_eq!(c.get_data(), &vec![11.0, 22.0, 33.0, 14.0, 25.0, 36.0]);
}

#[test]
fn add_of_equal_shapes_is_elementwise() {
    let a = matrix(vec![1.0, 2.0, 3.0, 4.0, 5.0, 6.0], 2, 3);
    let b = matrix(vec![0.5, 1.5, 2.5, 3.5, 4.5, 5.5], 2, 3);
    let c = a.add(&b);
    assert_eq!(c.get_shape(), &vec![2usize, 3]);
    assert_eq!(c.get_data(), &vec![1.5, 3.5, 5.5, 7.5, 9.5, 11.5]);
    let plain: Vec<f32> = a.get_data().iter().zip(b.get_data().iter()).map(|(x, y)| x + y).collect();
    assert_eq!(c.get_data(), &plain);
}

#[test]
fn add_refuses_other_shapes() {
    let a = matrix(vec![0.0; 6], 2, 3);
    let short = Tensor::new(Accuracy::F32, vec![0.0f32; 2], vec![2]);
    assert!(!a.can_add(&short));
    let other = matrix(vec![0.0; 6], 3, 2);
    assert!(!a.can_add(&other));
    let bias = Tensor::new(Accuracy::F32, vec![0.0f32; 3], vec![3]);
    assert!(!bias.can_add(&a));
}

#[test]
fn sub_and_mul_do_not_broadcast() {
    let a = matrix(vec![0.0; 6], 2, 3);
    let bias = Tensor::new(Accuracy::F32, vec![0.0f32; 3], vec![3]);
    assert!(a.can_add(&bias));
    assert!(!a.can_combine(&bias));
    let b = matrix(vec![0.0; 6], 2, 3);
    assert!(a.can_combine(&b));
}

#[test]
fn accuracy_mismatch_is_detected() {
    let a = Tensor::new(Accuracy::F32, vec![1.0f32, 2.0, 3.0, 4.0], vec![2, 2]);
    let b = Tensor::new(Accuracy::F16, vec![1.0f32, 2.0, 3.0, 4.0], vec![2, 2]);
    assert!(!a.can_add(&b));
    assert!(!a.can_combine(&b));
    assert!(!a.can_matmul(&b));
    let c = Tensor::new(Accuracy::F32, vec![1.0f32, 2.0, 3.0, 4.0], vec![2, 2]);
    assert!(a.can_add(&c));
    assert!(a.can_combine(&c));
    assert!(a.can_matmul(&c));
    let u = Tensor::new(Accuracy::U8, vec![1u8], vec![1]);
    let i = Tensor::new(Accuracy::I8, vec![1u8], vec![1]);
    assert!(!u.can_add(&i));
}

#[test]
fn sub_is_elementwise() {
    let a = matrix(vec![5.0, 7.0, 9.0, 11.0], 2, 2);
    let b = matrix(vec![1.0, 2.0, 3.0, 4.0], 2, 2);
    let c = a.sub(&b);
    assert_eq!(c.get_shape(), &vec![2usize, 2]);
    assert_eq!(c.get_data(), &vec![4.0, 5.0, 6.0, 7.0]);
}

#[test]
fn mul_elementswise_is_elementwise() {
    let a = matrix(vec![5.0, 7.0, 9.0, 11.0], 2, 2);
    let b = matrix(vec![1.0, 2.0, 3.0, 4.0], 2, 2);
    let c = a.mul_elementswise(&b);
    assert_eq!(c.get_shape(), &vec![2usize, 2]);
    assert_eq!(c.get_data(), &vec![5.0, 14.0, 27.0, 44.0]);
}

#[test]
fn scale_multiplies_every_element() {
    let a = Tensor::new(Accuracy::I8, vec![1i32, -2, 3], vec![3]);
    let c = a.scale(5);
    assert_eq!(c.get_shape(), &vec![3usize]);
    assert_eq!(c.get_data(), &vec![5, -10, 15]);
}

#[test]
fn sum_along_each_axis() {
    let t = matrix(vec![1.0, 2.0, 3.0, 4.0, 5.0, 6.0], 2, 3);
    let columns = t.sum(0);
    assert_eq!(columns.get_shape(), &vec![3usize]);
    assert_eq!(columns.get_data(), &vec![5.0, 7.0, 9.0]);
    assert_eq!(columns.get_size(), 3);
    let rows = t.sum(1);
    assert_eq!(rows.get_shape(), &vec![2usize]);
    assert_eq!(rows.get_data(), &vec![6.0, 15.0]);
    assert_eq!(rows.get_size(), 2);
}

#[test]
fn sum_of_a_matrix_without_rows() {
    let t = matrix(vec![], 0, 3);
    let columns = t.sum(0);
    assert_eq!(columns.get_shape(), &vec![3usize]);
    assert_eq!(columns.get_data(), &vec![0.0, 0.0, 0.0]);
    let rows = t.sum(1);
    assert_eq!(rows.get_shape(), &vec![0usize]);
    assert!(rows.get_data().is_empty());
}

#[test]
fn sum_all_collapses_to_one_element() {
    let t = Tensor::new(Accuracy::I8, vec![1i32, 2, 3, 4, 5, 6], vec![2, 3]);
    let s = t.sum_all();
    assert_eq!(s.get_shape(), &vec![1usize]);
    assert_eq!(s.get_data(), &vec![21]);
    assert_eq!(s.get_size(), 1);
    let e = Tensor::new(Accuracy::I8, Vec::<i32>::new(), vec![0]);
    assert_eq!(e.sum_all().get_data(), &vec![0]);
}

#[test]
fn map_applies_the_function_to_every_element() {
    let t = matrix(vec![1.0, -2.0, 3.0, -4.0], 2, 2);
    let doubled = t.map(|x| x * 2.0);
    assert_eq!(doubled.get_shape(), &vec![2usize, 2]);
    assert_eq!(doubled.get_data(), &vec![2.0, -4.0, 6.0, -8.0]);
    let rectified = t.map(relu);
    assert_eq!(rectified.get_data(), &vec![1.0, 0.0, 3.0, 0.0]);
}

#[test]
fn relu_keeps_what_is_greater_than_zero() {
    assert_eq!(relu(3.5f32), 3.5);
    assert_eq!(relu(-3.5f32), 0.0);
    assert_eq!(relu(0.0f32), 0.0);
    assert_eq!(relu(7i8), 7);
    assert_eq!(relu(-7i8), 0);
    assert_eq!(relu(0u8), 0);
    assert_eq!(relu(200u8), 200);
    assert_eq!(relu(f32::NAN), 0.0);
}

#[test]
fn zero_value_is_the_default() {
    assert_eq!(zero_value::<f32>(), 0.0);
    assert_eq!(zero_value::<i8>(), 0);
    assert_eq!(zero_value::<u8>(), 0);
}

#[test]
fn from_count_on_the_integer_representations() {
    assert_eq!(u8::from_count(0), 0);
    assert_eq!(u8::from_count(255), 255);
    assert_eq!(i8::from_count(127), 127);
    assert_eq!(i8::from_count(2), 2);
}

#[test]
fn can_count_tells_what_the_representation_holds() {
    assert!(u8::can_count(0));
    assert!(u8::can_count(255));
    assert!(!u8::can_count(256));
    assert!(i8::can_count(127));
    assert!(!i8::can_count(128));
    assert!(!i8::can_count(usize::MAX));
}
