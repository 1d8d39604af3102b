use umbralux::matrix::Matrix;
use umbralux::number::Number;

fn n(i: i64) -> Number {
    Number::from_int(i)
}

fn nr(num: i64, den: i64) -> Number {
    Number::from_ratio(num, den)
}

fn tol() -> Number {
    Number::from_raw(10_000)
}

fn mx(rows: Vec<Vec<i64>>) -> Matrix {
    let data: Vec<Vec<Number>> = rows.into_iter().map(|r| r.into_iter().map(n).collect()).collect();
    Matrix::from_elements(&data).unwrap()
}

#[test]
fn matrix_creation() {
    let mut m = Matrix::new(4, 1);

    let (n_rows, n_cols) = m.size();
    assert_eq!(n_rows, 4);
    assert_eq!(n_cols, 1);

    m.set(1, 0, n(42));

    for row in 0..n_rows {
        for col in 0..n_cols {
            let exp = if row == 1 && col == 0 { n(42) } else { n(0) };
            assert_eq!(exp, m.get(row, col));
        }
    }
}

#[test]
fn matrix_eqality() {
    let m1 = mx(vec![vec![1, 2], vec![3, 4]]);
    let m2 = mx(vec![vec![1, 2], vec![3, 4]]);
    let m3 = mx(vec![vec![4, 3], vec![2, 1]]);

    assert!(m1.equals(&m2));
    assert!(!m1.equals(&m3));
}

#[test]
fn matrix_scale() {
    let m = mx(vec![vec![1, 2], vec![3, 4]]);
    let exp = mx(vec![vec![2, 4], vec![6, 8]]);
    assert!(exp.equals(&m.scale(n(2))));
}

#[test]
fn matrix_multiplication() {
    let a = mx(vec![vec![1, 2, 3], vec![3, 4, 5]]);
    let b = mx(vec![vec![1, 2], vec![3, 4], vec![5, 6]]);
    let exp = mx(vec![vec![22, 28], vec![40, 52]]);
    assert!(exp.equals(&a.multiply(&b).unwrap()));
}

#[test]
fn matrix_mult_operation() {
    let a = mx(vec![vec![1, 2, 3], vec![3, 4, 5]]);
    let b = mx(vec![vec![1, 2], vec![3, 4], vec![5, 6]]);
    let c = a.multiply(&b).unwrap();
    let exp = mx(vec![vec![22, 28], vec![40, 52]]);
    assert!(exp.equals(&c));
}

#[test]
fn matrix_transpose() {
    let m = mx(vec![
        vec![0, 9, 3, 0],
        vec![9, 8, 0, 8],
        vec![1, 8, 5, 3],
        vec![0, 0, 5, 8],
        vec![1, 2, 3, 4],
    ]);
    let exp = mx(vec![
        vec![0, 9, 1, 0, 1],
        vec![9, 8, 8, 0, 2],
        vec![3, 0, 5, 5, 3],
        vec![0, 8, 3, 8, 4],
    ]);
    assert!(exp.equals(&m.transpose()));
}

#[test]
fn sub_matrix() {
    let m = mx(vec![vec![1, 2, 3], vec![4, 5, 6], vec![7, 8, 9]]);
    let exp = mx(vec![vec![1, 3], vec![7, 9]]);
    assert!(exp.equals(&m.sub_matrix(1, 1)));
}

#[test]
fn matrix_determinant() {
    let m = mx(vec![vec![1, 2, 6], vec![-5, 8, -4], vec![2, 6, 4]]);
    assert_eq!(n(-196), m.determinant().unwrap());

    let m = mx(vec![
        vec![-2, -8, 3, 5],
        vec![-3, 1, 7, 3],
        vec![1, 2, -9, 6],
        vec![-6, 7, 7, -9],
    ]);
    assert_eq!(n(-4071), m.determinant().unwrap());
}

#[test]
fn matrix_inverse() {
    let m = mx(vec![vec![1, 2, 3], vec![4, -5, 6], vec![7, 8, -10]]);
    let exp = Matrix::identity(3);

    let m_inv = m.invert().unwrap();

    assert!(exp.within(&m.multiply(&m_inv).unwrap(), tol()));
    assert!(exp.within(&m_inv.multiply(&m).unwrap(), tol()));

    let m_inv_inv = m_inv.invert().unwrap();
    assert!(m.within(&m_inv_inv, tol()));
}

#[test]
fn test_equality() {
    let data = vec![vec![n(1), n(2)], vec![n(3), n(4)], vec![n(5), n(6)]];
    let m1 = Matrix::from_elements(&data).unwrap();
    let m2 = Matrix::from_elements(&data).unwrap();
    assert!(m1.equals(&m2));
}

#[test]
fn test_multiplication() {
    let a = mx(vec![
        vec![1, 2, 3, 4],
        vec![5, 6, 7, 8],
        vec![9, 8, 7, 6],
        vec![5, 4, 3, 2],
    ]);
    let b = mx(vec![
        vec![-2, 1, 2, 3],
        vec![3, 2, 1, -1],
        vec![4, 3, 6, 5],
        vec![1, 2, 7, 8],
    ]);
    let expected = mx(vec![
        vec![20, 22, 50, 48],
        vec![44, 54, 114, 108],
        vec![40, 58, 110, 102],
        vec![16, 26, 46, 42],
    ]);
    let actual = a.multiply(&b).unwrap();
    assert!(actual.equals(&expected));
}

#[test]
fn test_multiplication_with_vec4() {
    let a = mx(vec![
        vec![1, 2, 3, 4],
        vec![2, 4, 4, 2],
        vec![8, 6, 4, 1],
        vec![0, 0, 0, 1],
    ]);
    let b = mx(vec![vec![1], vec![2], vec![3], vec![1]]);
    let actual = a.multiply(&b).unwrap();
    let expected = mx(vec![vec![18], vec![24], vec![33], vec![1]]);
    assert!(actual.equals(&expected));
}

#[test]
fn test_identity_multiplication() {
    let identity = Matrix::identity(3);
    let a = mx(vec![vec![1, 2, 3], vec![4, 5, 6], vec![7, 8, 9]]);
    let b = a.multiply(&identity).unwrap();
    let b2 = identity.multiply(&a).unwrap();

    assert!(a.equals(&b));
    assert!(a.equals(&b2));
}

#[test]
fn test_transpose() {
    let a = mx(vec![vec![1, 2, 3], vec![4, 5, 6], vec![7, 8, 9]]);
    let expected = mx(vec![vec![1, 4, 7], vec![2, 5, 8], vec![3, 6, 9]]);
    assert!(a.transpose().equals(&expected));
}

#[test]
fn test_transpose_identity() {
    let identity = Matrix::identity(3);
    assert!(identity.transpose().equals(&Matrix::identity(3)));
}

#[test]
fn test_sub_matrix() {
    let a = mx(vec![vec![1, 2, 3], vec![4, 5, 6], vec![7, 8, 9]]);
    let expected = mx(vec![vec![1, 3], vec![4, 6]]);
    assert!(a.sub_matrix(2, 1).equals(&expected));
}

#[test]
fn test_determinant() {
    let a = mx(vec![
        vec![-2, -8, 3, 5],
        vec![-3, 1, 7, 3],
        vec![1, 2, -9, 6],
        vec![-6, 7, 7, -9],
    ]);
    assert_eq!(n(-4071), a.determinant().unwrap());
}

#[test]
fn test_inverse() {
    let a = mx(vec![
        vec![-5, 2, 6, -8],
        vec![1, -5, 1, 8],
        vec![7, 7, -6, -7],
        vec![1, -3, 7, 4],
    ]);
    let expected_rows: Vec<Vec<Number>> = vec![
        vec![nr(21805, 100000), nr(45113, 100000), nr(24060, 100000), nr(-4511, 100000)],
        vec![nr(-80827, 100000), nr(-145677, 100000), nr(-44361, 100000), nr(52068, 100000)],
        vec![nr(-7895, 100000), nr(-22368, 100000), nr(-5263, 100000), nr(19737, 100000)],
        vec![nr(-52256, 100000), nr(-81391, 100000), nr(-30075, 100000), nr(30639, 100000)],
    ];
    let expected = Matrix::from_elements(&expected_rows).unwrap();
    let actual = a.invert().unwrap();
    assert!(actual.within(&expected, tol()));
}

#[test]
fn ragged_rows_are_rejected() {
    let data = vec![vec![n(1), n(2)], vec![n(3)]];
    assert!(Matrix::from_elements(&data).is_err());
}

#[test]
fn empty_matrix_is_rejected() {
    let data: Vec<Vec<Number>> = vec![];
    assert!(Matrix::from_elements(&data).is_err());
}

#[test]
fn determinant_of_non_square_is_rejected() {
    let m = mx(vec![vec![1, 2, 3], vec![4, 5, 6]]);
    assert!(m.determinant().is_err());
}

#[test]
fn multiplication_with_mismatched_sizes_is_rejected() {
    let a = mx(vec![vec![1, 2], vec![3, 4]]);
    let b = mx(vec![vec![1, 2], vec![3, 4], vec![5, 6]]);
    assert!(a.multiply(&b).is_err());
}

#[test]
fn singular_matrix_cannot_be_inverted() {
    let m = mx(vec![vec![1, 2], vec![2, 4]]);
    assert!(m.invert().is_err());
}
