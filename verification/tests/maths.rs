use vulkan_quad::maths::matrix::Matrix;
use vulkan_quad::maths::vector::Vector;

#[test]
fn vector_components_come_back_in_order() {
    let v = Vector::new([7u32, 8, 9]);
    assert_eq!(v.x(), 7);
    assert_eq!(v.y(), 8);
    assert_eq!(v.z(), 9);
}

#[test]
fn identity_has_ones_on_the_diagonal_only() {
    let m: Matrix<i32, 4, 4> = Matrix::identity(1);
    let columns = m.columns();
    for c in 0..4 {
        for r in 0..4 {
            assert_eq!(columns[c][r], if c == r { 1 } else { 0 });
        }
    }
}

#[test]
fn default_matrix_is_all_default() {
    let m: Matrix<u8, 2, 3> = Matrix::default();
    assert_eq!(*m.columns(), [[0u8; 2]; 3]);
}

#[test]
fn identity_of_floats() {
    let m: Matrix<f32, 4, 4> = Matrix::identity(1.0);
    assert_eq!(
        *m.columns(),
        [[1.0, 0.0, 0.0, 0.0], [0.0, 1.0, 0.0, 0.0], [0.0, 0.0, 1.0, 0.0], [0.0, 0.0, 0.0, 1.0]]
    );
}

#[test]
fn matrix_keeps_its_columns() {
    let m = Matrix::new([[1u8, 2], [3, 4], [5, 6]]);
    assert_eq!(*m.columns(), [[1, 2], [3, 4], [5, 6]]);
    let copy = m;
    assert_eq!(copy.columns()[2][1], 6);
}

#[test]
fn vector_of_floats() {
    let v = Vector::new([0.0f32, 0.0, 5.0]);
    assert_eq!(v.z(), 5.0);
    assert_eq!(v.x(), 0.0);
}

#[test]
fn identity_of_size_one_and_zero() {
    let one: Matrix<u32, 1, 1> = Matrix::identity(9);
    assert_eq!(*one.columns(), [[9]]);
    let none: Matrix<u32, 0, 0> = Matrix::identity(9);
    assert_eq!(none.columns().len(), 0);
}
