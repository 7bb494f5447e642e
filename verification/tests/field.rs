use matrix_visualizer::field::Matrix;

#[test]
fn a_field_keeps_its_shape() {
    let u = Matrix::from_shape_vec(2, 3, vec![1, 2, 3, 4, 5, 6]).unwrap();
    assert_eq!(u.nrows(), 2);
    assert_eq!(u.ncols(), 3);
}

#[test]
fn samples_come_back_row_by_row() {
    let u = Matrix::from_shape_vec(2, 3, vec![1, 2, 3, 4, 5, 6]).unwrap();
    assert_eq!(u.rows(), vec![vec![1, 2, 3], vec![4, 5, 6]]);
    let v = Matrix::from_shape_vec(3, 2, vec![1, 2, 3, 4, 5, 6]).unwrap();
    assert_eq!(v.rows(), vec![vec![1, 2], vec![3, 4], vec![5, 6]]);
}

#[test]
fn too_few_samples_make_no_field() {
    assert!(Matrix::from_shape_vec(2, 3, vec![1, 2, 3, 4, 5]).is_none());
}

#[test]
fn too_many_samples_make_no_field() {
    assert!(Matrix::from_shape_vec(2, 3, vec![1, 2, 3, 4, 5, 6, 7]).is_none());
    assert!(Matrix::from_shape_vec(0, 3, vec![1]).is_none());
}

#[test]
fn a_shape_that_overflows_makes_no_field() {
    assert!(Matrix::from_shape_vec(usize::MAX, 2, vec![]).is_none());
    assert!(Matrix::from_shape_vec(usize::MAX, 0, vec![]).is_none());
    assert!(Matrix::from_shape_vec(0, usize::MAX, vec![]).is_none());
}

#[test]
fn a_field_may_be_empty() {
    let none = Matrix::from_shape_vec(0, 0, vec![]).unwrap();
    assert_eq!((none.nrows(), none.ncols()), (0, 0));
    assert_eq!(none.rows(), Vec::<Vec<u32>>::new());

    let no_rows = Matrix::from_shape_vec(0, 4, vec![]).unwrap();
    assert_eq!((no_rows.nrows(), no_rows.ncols()), (0, 4));
    assert_eq!(no_rows.rows(), Vec::<Vec<u32>>::new());

    let no_columns = Matrix::from_shape_vec(3, 0, vec![]).unwrap();
    assert_eq!((no_columns.nrows(), no_columns.ncols()), (3, 0));
    assert_eq!(no_columns.rows(), vec![Vec::<u32>::new(); 3]);
}

#[test]
fn an_axis_may_be_as_long_as_the_array_allows() {
    let longest = isize::MAX as usize;
    let u = Matrix::from_shape_vec(longest, 0, vec![]).unwrap();
    assert_eq!((u.nrows(), u.ncols()), (longest, 0));
    assert!(Matrix::from_shape_vec(longest + 1, 0, vec![]).is_none());
}
