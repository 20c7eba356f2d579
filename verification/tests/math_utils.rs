use codi::math_utils::matrix_mul;

#[test]
fn matrix_mul_zero_size_dimension() {
    let empty = [[0u32; 0]; 0];
    assert_eq!(matrix_mul(&empty, &empty), empty);

    // 1x0 X 0x2 = 1x2
    assert_eq!(matrix_mul(&[[1u32; 0]; 1], &[[1; 2]; 0]), [[0; 2]; 1]);
}

#[test]
fn matrix_mul_same_squares() {
    let matrix = [[1u32, 2, 3], [4, 5, 6], [7, 8, 9]];
    let answer = [[30, 36, 42], [66, 81, 96], [102, 126, 150]];
    assert_eq!(matrix_mul(&matrix, &matrix), answer);
}

#[test]
fn matrix_mul_rectangles() {
    let a = [[1i64, -2, 3], [0, 4, -5]];
    let b = [[7i64], [8], [9]];
    assert_eq!(matrix_mul(&a, &b), [[18], [-13]]);
    let identity = [[1u8, 0], [0, 1]];
    let m = [[3u8, 4], [5, 6]];
    assert_eq!(matrix_mul(&identity, &m), m);
    assert_eq!(matrix_mul(&m, &identity), m);
}

#[test]
fn matrix_mul_is_not_commutative() {
    let a = [[1u32, 2], [3, 4]];
    let b = [[0u32, 1], [1, 0]];
    assert_eq!(matrix_mul(&a, &b), [[2, 1], [4, 3]]);
    assert_eq!(matrix_mul(&b, &a), [[3, 4], [1, 2]]);
}
