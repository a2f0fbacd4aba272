use tensor_algebra::algebra::{Algebra, AlgebraicVector};

fn complex_tensor() -> Vec<Vec<Vec<i32>>> {
    vec![vec![vec![1, 0], vec![0, -1]], vec![vec![0, 1], vec![1, 0]]]
}

fn quaternion_tensor() -> Vec<Vec<Vec<i64>>> {
    vec![
        vec![vec![1, 0, 0, 0], vec![0, -1, 0, 0], vec![0, 0, -1, 0], vec![0, 0, 0, -1]],
        vec![vec![0, 1, 0, 0], vec![1, 0, 0, 0], vec![0, 0, 0, 1], vec![0, 0, -1, 0]],
        vec![vec![0, 0, 1, 0], vec![0, 0, 0, -1], vec![1, 0, 0, 0], vec![0, 1, 0, 0]],
        vec![vec![0, 0, 0, 1], vec![0, 0, 1, 0], vec![0, -1, 0, 0], vec![1, 0, 0, 0]],
    ]
}

fn scaled(s: i32, vector: &AlgebraicVector<i32>) -> AlgebraicVector<'static, i32> {
    let data: Vec<i32> = vector.data.iter().map(|x| s * x).collect();
    // The scaled copy is only read through `data`, so any algebra will do.
    let tensor: &'static Vec<Vec<Vec<i32>>> = Box::leak(Box::new(Vec::new()));
    Algebra { dim: 0, p_tensor: tensor }.create_vector(data)
}

#[test]
fn complex_product_has_exact_coordinates() {
    let tensor = complex_tensor();
    let algebra = Algebra { dim: 2, p_tensor: &tensor };
    let product = algebra.create_vector(vec![1, 2]) * algebra.create_vector(vec![3, 4]);
    assert_eq!(product.data, vec![-5, 10]);
    assert_eq!(product.algebra.dim, 2);
    assert!(std::ptr::eq(product.algebra.p_tensor, &tensor));
}

#[test]
fn split_complex_product_has_exact_coordinates() {
    let tensor = vec![vec![vec![1, 0], vec![0, 1]], vec![vec![0, 1], vec![1, 0]]];
    let algebra = Algebra { dim: 2, p_tensor: &tensor };
    let product = algebra.create_vector(vec![1, 2]) * algebra.create_vector(vec![3, 4]);
    assert_eq!(product.data, vec![11, 10]);
}

#[test]
fn dual_number_product_has_exact_coordinates() {
    let tensor = vec![vec![vec![1, 0], vec![0, 0]], vec![vec![0, 1], vec![1, 0]]];
    let algebra = Algebra { dim: 2, p_tensor: &tensor };
    let product = algebra.create_vector(vec![1, 2]) * algebra.create_vector(vec![3, 4]);
    assert_eq!(product.data, vec![3, 10]);
}

#[test]
fn created_vector_keeps_its_data() {
    let tensor = vec![vec![vec![1, 0], vec![0, 1]], vec![vec![0, 0], vec![0, 0]]];
    let algebra = Algebra { dim: 2, p_tensor: &tensor };
    let vector = algebra.create_vector(vec![1, 2]);
    assert_eq!(vector.data, vec![1, 2]);
    assert_eq!(vector[0], 1);
    assert_eq!(vector[1], 2);
    assert_eq!(vector.algebra.dim, 2);
    assert!(std::ptr::eq(vector.algebra.p_tensor, &tensor));
}

#[test]
fn index_returns_each_coordinate() {
    let tensor: Vec<Vec<Vec<i64>>> = quaternion_tensor();
    let algebra = Algebra { dim: 4, p_tensor: &tensor };
    let data: Vec<i64> = vec![7, -3, 0, 12];
    let vector = algebra.create_vector(data.clone());
    for i in 0..data.len() {
        assert_eq!(vector[i], data[i]);
    }
}

#[test]
fn create_vector_does_not_look_at_the_length() {
    let tensor = complex_tensor();
    let algebra = Algebra { dim: 2, p_tensor: &tensor };
    assert_eq!(algebra.create_vector(vec![]).data.len(), 0);
    let long = algebra.create_vector(vec![1, 2, 3]);
    assert_eq!(long.data, vec![1, 2, 3]);
    assert_eq!(long[2], 3);
}

#[test]
fn sum_is_commutative_on_values() {
    let tensor = complex_tensor();
    let algebra = Algebra { dim: 2, p_tensor: &tensor };
    let a = algebra.create_vector(vec![5, -7]);
    let b = algebra.create_vector(vec![11, 13]);
    let left = a.clone() + b.clone();
    let right = b + a;
    assert_eq!(left.data, vec![16, 6]);
    assert_eq!(right.data, vec![16, 6]);
}

#[test]
fn sum_is_associative_on_values() {
    let tensor = complex_tensor();
    let algebra = Algebra { dim: 2, p_tensor: &tensor };
    let a = algebra.create_vector(vec![1, 2]);
    let b = algebra.create_vector(vec![30, 40]);
    let c = algebra.create_vector(vec![-500, 600]);
    let left = (a.clone() + b.clone()) + c.clone();
    let right = a + (b + c);
    assert_eq!(left.data, vec![-469, 642]);
    assert_eq!(right.data, vec![-469, 642]);
}

#[test]
fn add_assign_leaves_what_add_returns() {
    let tensor = complex_tensor();
    let algebra = Algebra { dim: 2, p_tensor: &tensor };
    let a = algebra.create_vector(vec![9, -4]);
    let b = algebra.create_vector(vec![-2, 8]);
    let sum = a.clone() + b.clone();
    let mut in_place = a;
    in_place += b;
    assert_eq!(in_place.data, vec![7, 4]);
    assert_eq!(in_place.data, sum.data);
    assert_eq!(in_place.algebra.dim, 2);
    assert!(std::ptr::eq(in_place.algebra.p_tensor, &tensor));
}

#[test]
fn sum_has_one_coordinate_per_basis_element() {
    let tensor = complex_tensor();
    let algebra = Algebra { dim: 2, p_tensor: &tensor };
    let a = algebra.create_vector(vec![1, 2, 100]);
    let b = algebra.create_vector(vec![3, 4, 200, 300]);
    let sum = a + b;
    assert_eq!(sum.data, vec![4, 6]);
}

#[test]
fn add_assign_keeps_coordinates_beyond_the_dimension() {
    let tensor = vec![vec![vec![1]]];
    let algebra = Algebra { dim: 1, p_tensor: &tensor };
    let mut a = algebra.create_vector(vec![1, 5]);
    let b = algebra.create_vector(vec![2]);
    let sum = a.clone() + b.clone();
    a += b;
    assert_eq!(a.data, vec![3, 5]);
    assert_eq!(sum.data, vec![3]);
}

#[test]
fn sum_takes_the_algebra_of_the_left_operand() {
    let left_tensor = complex_tensor();
    let right_tensor = vec![vec![vec![1, 0], vec![0, 1]], vec![vec![0, 1], vec![1, 0]]];
    let a = Algebra { dim: 2, p_tensor: &left_tensor }.create_vector(vec![1, 2]);
    let b = Algebra { dim: 2, p_tensor: &right_tensor }.create_vector(vec![3, 4]);
    let sum = a + b;
    assert!(std::ptr::eq(sum.algebra.p_tensor, &left_tensor));
}

#[test]
fn product_takes_the_algebra_of_the_left_operand() {
    let left_tensor = complex_tensor();
    let right_tensor = vec![vec![vec![1, 0], vec![0, 1]], vec![vec![0, 1], vec![1, 0]]];
    let a = Algebra { dim: 2, p_tensor: &left_tensor }.create_vector(vec![1, 2]);
    let b = Algebra { dim: 2, p_tensor: &right_tensor }.create_vector(vec![3, 4]);
    let product = a * b;
    assert_eq!(product.data, vec![-5, 10]);
    assert!(std::ptr::eq(product.algebra.p_tensor, &left_tensor));
}

#[test]
fn product_reads_only_the_first_coordinates() {
    let tensor = complex_tensor();
    let algebra = Algebra { dim: 2, p_tensor: &tensor };
    let a = algebra.create_vector(vec![1, 2, 1000]);
    let b = algebra.create_vector(vec![3, 4, 2000, 3000]);
    assert_eq!((a * b).data, vec![-5, 10]);
}

#[test]
fn product_reads_only_the_constants_below_the_dimension() {
    let tensor = vec![
        vec![vec![1, 0, 9], vec![0, -1, 9], vec![9, 9, 9]],
        vec![vec![0, 1, 9], vec![1, 0, 9]],
        vec![vec![9]],
    ];
    let algebra = Algebra { dim: 2, p_tensor: &tensor };
    let product = algebra.create_vector(vec![1, 2]) * algebra.create_vector(vec![3, 4]);
    assert_eq!(product.data, vec![-5, 10]);
}

#[test]
fn algebra_of_dimension_zero_has_empty_sums_and_products() {
    let tensor: Vec<Vec<Vec<i32>>> = vec![];
    let algebra = Algebra { dim: 0, p_tensor: &tensor };
    let a = algebra.create_vector(vec![]);
    let b = algebra.create_vector(vec![]);
    assert_eq!((a.clone() + b.clone()).data.len(), 0);
    assert_eq!((a.clone() * b.clone()).data.len(), 0);
    let mut c = a;
    c += b;
    assert_eq!(c.data.len(), 0);
}

#[test]
fn algebra_of_dimension_one_multiplies_by_its_constant() {
    let tensor = vec![vec![vec![-3]]];
    let algebra = Algebra { dim: 1, p_tensor: &tensor };
    let product = algebra.create_vector(vec![5]) * algebra.create_vector(vec![7]);
    assert_eq!(product.data, vec![-105]);
}

#[test]
fn quaternion_product_has_exact_coordinates() {
    let tensor = quaternion_tensor();
    let algebra = Algebra { dim: 4, p_tensor: &tensor };
    let a = algebra.create_vector(vec![1, 2, 3, 4]);
    let b = algebra.create_vector(vec![5, 6, 7, 8]);
    assert_eq!((a * b).data, vec![-60, 12, 30, 24]);
}

#[test]
fn product_need_not_commute() {
    let tensor = quaternion_tensor();
    let algebra = Algebra { dim: 4, p_tensor: &tensor };
    let a = algebra.create_vector(vec![1, 2, 3, 4]);
    let b = algebra.create_vector(vec![5, 6, 7, 8]);
    let ab = a.clone() * b.clone();
    let ba = b * a;
    assert_eq!(ab.data, vec![-60, 12, 30, 24]);
    assert_eq!(ba.data, vec![-60, 20, 14, 32]);
    assert_ne!(ab.data, ba.data);
}

#[test]
fn product_commutes_for_symmetric_constants() {
    let tensor = vec![vec![vec![2, 5], vec![5, -1]], vec![vec![0, 3], vec![3, 7]]];
    let algebra = Algebra { dim: 2, p_tensor: &tensor };
    let a = algebra.create_vector(vec![1, 2]);
    let b = algebra.create_vector(vec![3, 4]);
    let ab = a.clone() * b.clone();
    let ba = b * a;
    assert_eq!(ab.data, vec![48, 86]);
    assert_eq!(ba.data, vec![48, 86]);
}

#[test]
fn product_need_not_be_associative() {
    // The cross product of three-dimensional space.
    let tensor = vec![
        vec![vec![0, 0, 0], vec![0, 0, 1], vec![0, -1, 0]],
        vec![vec![0, 0, -1], vec![0, 0, 0], vec![1, 0, 0]],
        vec![vec![0, 1, 0], vec![-1, 0, 0], vec![0, 0, 0]],
    ];
    let algebra = Algebra { dim: 3, p_tensor: &tensor };
    let x = algebra.create_vector(vec![1, 0, 0]);
    let y = algebra.create_vector(vec![0, 1, 0]);
    let cross = algebra.create_vector(vec![1, 2, 3]) * algebra.create_vector(vec![4, 5, 6]);
    assert_eq!(cross.data, vec![-3, 6, -3]);
    let left = (x.clone() * x.clone()) * y.clone();
    let right = x.clone() * (x * y);
    assert_eq!(left.data, vec![0, 0, 0]);
    assert_eq!(right.data, vec![0, -1, 0]);
}

#[test]
fn product_scales_with_its_first_factor() {
    let tensor = complex_tensor();
    let algebra = Algebra { dim: 2, p_tensor: &tensor };
    let a = algebra.create_vector(vec![1, 2]);
    let b = algebra.create_vector(vec![3, 4]);
    let scaled_a = algebra.create_vector(scaled(7, &a).data);
    let left = scaled_a * b.clone();
    let right = scaled(7, &(a * b));
    assert_eq!(left.data, vec![-35, 70]);
    assert_eq!(right.data, vec![-35, 70]);
}

#[test]
fn product_scales_with_its_second_factor() {
    let tensor = complex_tensor();
    let algebra = Algebra { dim: 2, p_tensor: &tensor };
    let a = algebra.create_vector(vec![1, 2]);
    let b = algebra.create_vector(vec![3, 4]);
    let scaled_b = algebra.create_vector(scaled(-3, &b).data);
    let left = a.clone() * scaled_b;
    let right = scaled(-3, &(a * b));
    assert_eq!(left.data, vec![15, -30]);
    assert_eq!(right.data, vec![15, -30]);
}

#[test]
fn product_distributes_over_sums() {
    let tensor = quaternion_tensor();
    let algebra = Algebra { dim: 4, p_tensor: &tensor };
    let a = algebra.create_vector(vec![1, 2, 3, 4]);
    let b = algebra.create_vector(vec![5, 6, 7, 8]);
    let c = algebra.create_vector(vec![-1, 0, 2, -3]);
    let left = (a.clone() + c.clone()) * b.clone();
    let right = a.clone() * b.clone() + c.clone() * b.clone();
    assert_eq!(left.data, right.data);
    assert_eq!(left.data, vec![-55, 43, 15, -11]);
    let left = a.clone() * (b.clone() + c.clone());
    let right = a.clone() * b + a * c;
    assert_eq!(left.data, right.data);
    assert_eq!(left.data, vec![-55, -7, 35, 21]);
}

#[test]
fn clone_keeps_algebra_and_coordinates() {
    let tensor = complex_tensor();
    let algebra = Algebra { dim: 2, p_tensor: &tensor };
    let vector = algebra.create_vector(vec![4, 5, 6]);
    let copy = vector.clone();
    assert_eq!(copy.data, vec![4, 5, 6]);
    assert_eq!(copy.algebra.dim, 2);
    assert!(std::ptr::eq(copy.algebra.p_tensor, vector.algebra.p_tensor));
    let same = algebra.clone();
    assert_eq!(same.dim, 2);
    assert!(std::ptr::eq(same.p_tensor, algebra.p_tensor));
}

#[test]
fn operands_are_left_as_they_were() {
    let tensor = complex_tensor();
    let algebra = Algebra { dim: 2, p_tensor: &tensor };
    let a = algebra.create_vector(vec![1, 2]);
    let b = algebra.create_vector(vec![3, 4]);
    let _ = a.clone() * b.clone();
    let _ = a.clone() + b.clone();
    assert_eq!(a.data, vec![1, 2]);
    assert_eq!(b.data, vec![3, 4]);
    assert_eq!(tensor, complex_tensor());
}

#[test]
fn every_integer_type_is_a_scalar() {
    let t8: Vec<Vec<Vec<i8>>> = vec![vec![vec![1, 0], vec![0, -1]], vec![vec![0, 1], vec![1, 0]]];
    let a8 = Algebra { dim: 2, p_tensor: &t8 };
    assert_eq!((a8.create_vector(vec![1, 2]) * a8.create_vector(vec![3, 4])).data, vec![-5, 10]);

    let t16: Vec<Vec<Vec<i16>>> = vec![vec![vec![1, 0], vec![0, -1]], vec![vec![0, 1], vec![1, 0]]];
    let a16 = Algebra { dim: 2, p_tensor: &t16 };
    assert_eq!((a16.create_vector(vec![1, 2]) * a16.create_vector(vec![3, 4])).data, vec![-5, 10]);

    let t128: Vec<Vec<Vec<i128>>> = vec![vec![vec![1, 0], vec![0, -1]], vec![vec![0, 1], vec![1, 0]]];
    let a128 = Algebra { dim: 2, p_tensor: &t128 };
    assert_eq!((a128.create_vector(vec![1, 2]) * a128.create_vector(vec![3, 4])).data, vec![-5, 10]);

    let ts: Vec<Vec<Vec<isize>>> = vec![vec![vec![1, 0], vec![0, -1]], vec![vec![0, 1], vec![1, 0]]];
    let a_s = Algebra { dim: 2, p_tensor: &ts };
    assert_eq!((a_s.create_vector(vec![1, 2]) * a_s.create_vector(vec![3, 4])).data, vec![-5, 10]);

    let tu8: Vec<Vec<Vec<u8>>> = vec![vec![vec![1, 0], vec![0, 1]], vec![vec![0, 1], vec![1, 0]]];
    let au8 = Algebra { dim: 2, p_tensor: &tu8 };
    assert_eq!((au8.create_vector(vec![1, 2]) * au8.create_vector(vec![3, 4])).data, vec![11, 10]);

    let tu16: Vec<Vec<Vec<u16>>> = vec![vec![vec![1, 0], vec![0, 1]], vec![vec![0, 1], vec![1, 0]]];
    let au16 = Algebra { dim: 2, p_tensor: &tu16 };
    assert_eq!((au16.create_vector(vec![1, 2]) + au16.create_vector(vec![3, 4])).data, vec![4, 6]);

    let tu32: Vec<Vec<Vec<u32>>> = vec![vec![vec![1, 0], vec![0, 1]], vec![vec![0, 1], vec![1, 0]]];
    let au32 = Algebra { dim: 2, p_tensor: &tu32 };
    assert_eq!((au32.create_vector(vec![1, 2]) * au32.create_vector(vec![3, 4])).data, vec![11, 10]);

    let tu64: Vec<Vec<Vec<u64>>> = vec![vec![vec![1, 0], vec![0, 1]], vec![vec![0, 1], vec![1, 0]]];
    let au64 = Algebra { dim: 2, p_tensor: &tu64 };
    let mut sum = au64.create_vector(vec![1, 2]);
    sum += au64.create_vector(vec![3, 4]);
    assert_eq!(sum.data, vec![4, 6]);

    let tu128: Vec<Vec<Vec<u128>>> = vec![vec![vec![1, 0], vec![0, 1]], vec![vec![0, 1], vec![1, 0]]];
    let au128 = Algebra { dim: 2, p_tensor: &tu128 };
    assert_eq!((au128.create_vector(vec![1, 2]) * au128.create_vector(vec![3, 4])).data, vec![11, 10]);

    let tus: Vec<Vec<Vec<usize>>> = vec![vec![vec![1, 0], vec![0, 1]], vec![vec![0, 1], vec![1, 0]]];
    let aus = Algebra { dim: 2, p_tensor: &tus };
    assert_eq!((aus.create_vector(vec![1, 2]) * aus.create_vector(vec![3, 4])).data, vec![11, 10]);
}

#[test]
fn results_at_the_limits_of_the_scalar_type() {
    let tensor: Vec<Vec<Vec<i8>>> = vec![vec![vec![1]]];
    let algebra = Algebra { dim: 1, p_tensor: &tensor };
    let sum = algebra.create_vector(vec![100]) + algebra.create_vector(vec![27]);
    assert_eq!(sum.data, vec![127]);
    let product = algebra.create_vector(vec![-64]) * algebra.create_vector(vec![2]);
    assert_eq!(product.data, vec![-128]);
}
