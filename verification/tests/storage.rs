use mrvcr::common::error::{ModelError, SparseSlot};
use mrvcr::common::matrix::{DenseMatrix, MatrixView};
use mrvcr::common::storage::{
    dense_matrix_from_robj, numeric_vector_or_matrix_from_robj, optional_numeric_vector_from_robj,
    InputMatrix, RobjMatrix,
};

#[test]
fn dense_matrix_is_column_major() {
    let m = DenseMatrix::from_column_major(vec![1.0, 2.0, 3.0, 4.0, 5.0, 6.0], 2, 3);
    assert_eq!(m.nrows(), 2);
    assert_eq!(m.ncols(), 3);
    assert_eq!(*m.get(0, 0), 1.0);
    assert_eq!(*m.get(1, 0), 2.0);
    assert_eq!(*m.get(0, 2), 5.0);
    assert_eq!(*m.get(1, 2), 6.0);
    assert_eq!(m.to_column_major_vec(), vec![1.0, 2.0, 3.0, 4.0, 5.0, 6.0]);
}

#[test]
fn select_rows_keeps_order_and_columns() {
    let m = DenseMatrix::from_column_major(vec![1, 2, 3, 10, 20, 30], 3, 2);
    let s = m.select_rows(&[2, 0]);
    assert_eq!(s.nrows(), 2);
    assert_eq!(s.ncols(), 2);
    assert_eq!(s.into_column_major(), vec![3, 1, 30, 10]);
    let empty = m.select_rows(&[]);
    assert_eq!(empty.nrows(), 0);
    assert_eq!(empty.ncols(), 2);
    assert!(empty.as_column_major().is_empty());
}

#[test]
fn matrix_view_reads_in_place_and_copies() {
    let values = [1.5, 2.5, 3.5, 4.5];
    let v = MatrixView::from_column_major_slice(&values, 2, 2);
    assert_eq!(*v.get(1, 1), 4.5);
    assert_eq!(*v.get(0, 1), 3.5);
    let owned = v.to_owned();
    assert_eq!(owned.as_column_major(), &values[..]);
}

#[test]
fn dense_robj_becomes_a_view() {
    let values = [1.0, 2.0, 3.0, 4.0, 5.0, 6.0];
    let obj = RobjMatrix::Matrix { nrows: 3, ncols: 2, real_values: Some(&values[..]) };
    let m = InputMatrix::try_from_robj(obj).unwrap();
    assert_eq!(m.nrows(), 3);
    assert_eq!(m.ncols(), 2);
    match m {
        InputMatrix::Dense(v) => assert_eq!(*v.get(2, 1), 6.0),
        _ => panic!("expected a dense matrix"),
    }
}

#[test]
fn dense_robj_errors() {
    let obj: RobjMatrix<'_, f64> = RobjMatrix::Matrix { nrows: 2, ncols: 2, real_values: None };
    assert!(matches!(InputMatrix::try_from_robj(obj), Err(ModelError::DenseNotReal)));
    let values = [1.0, 2.0, 3.0];
    let obj = RobjMatrix::Matrix { nrows: 2, ncols: 2, real_values: Some(&values[..]) };
    assert!(matches!(
        InputMatrix::try_from_robj(obj),
        Err(ModelError::DenseLengthMismatch { len: 3, nrows: 2, ncols: 2 })
    ));
}

#[test]
fn sparse_robj_is_copied_slot_by_slot() {
    let p = [0, 1, 2];
    let i = [1, 0];
    let x = [7.0, 8.0];
    let obj = RobjMatrix::DgCMatrix { nrows: 2, ncols: 2, p: Some(&p[..]), i: Some(&i[..]), x: Some(&x[..]) };
    let m = InputMatrix::try_from_robj(obj).unwrap();
    assert_eq!(m.nrows(), 2);
    assert_eq!(m.ncols(), 2);
    match m {
        InputMatrix::SparseCscOwned { col_ptrs, row_indices, values, .. } => {
            assert_eq!(col_ptrs, vec![0usize, 1, 2]);
            assert_eq!(row_indices, vec![1usize, 0]);
            assert_eq!(values, vec![7.0, 8.0]);
        }
        _ => panic!("expected a sparse matrix"),
    }
}

#[test]
fn sparse_robj_negative_index_converts_like_as() {
    let p = [-1];
    let i: [i32; 0] = [];
    let x: [f64; 0] = [];
    let obj = RobjMatrix::DgCMatrix { nrows: 0, ncols: 0, p: Some(&p[..]), i: Some(&i[..]), x: Some(&x[..]) };
    match InputMatrix::try_from_robj(obj).unwrap() {
        InputMatrix::SparseCscOwned { col_ptrs, .. } => assert_eq!(col_ptrs, vec![usize::MAX]),
        _ => panic!("expected a sparse matrix"),
    }
}

#[test]
fn sparse_robj_missing_slots_are_reported_in_order() {
    let p = [0];
    let x = [1.0];
    let obj: RobjMatrix<'_, f64> = RobjMatrix::DgCMatrix { nrows: 1, ncols: 1, p: None, i: None, x: None };
    assert!(matches!(InputMatrix::try_from_robj(obj), Err(ModelError::MissingSparseSlot { slot: SparseSlot::P })));
    let obj = RobjMatrix::DgCMatrix { nrows: 1, ncols: 1, p: Some(&p[..]), i: None, x: Some(&x[..]) };
    assert!(matches!(InputMatrix::try_from_robj(obj), Err(ModelError::MissingSparseSlot { slot: SparseSlot::I })));
    let obj: RobjMatrix<'_, f64> = RobjMatrix::DgCMatrix { nrows: 1, ncols: 1, p: Some(&p[..]), i: Some(&p[..]), x: None };
    assert!(matches!(InputMatrix::try_from_robj(obj), Err(ModelError::MissingSparseSlot { slot: SparseSlot::X })));
}

#[test]
fn other_robj_is_kept_by_its_dimensions() {
    let obj: RobjMatrix<'_, f64> = RobjMatrix::Other { nrows: 4, ncols: 1 };
    let m = InputMatrix::try_from_robj(obj).unwrap();
    assert!(matches!(m, InputMatrix::CustomPlaceholder { nrows: 4, ncols: 1 }));
    assert_eq!(m.nrows(), 4);
    assert_eq!(m.ncols(), 1);
}

#[test]
fn dense_matrix_from_robj_reads_or_refuses() {
    let values = [1.0, 2.0];
    let obj = RobjMatrix::Matrix { nrows: 1, ncols: 2, real_values: Some(&values[..]) };
    let m = dense_matrix_from_robj(obj, "x").unwrap();
    assert_eq!(m.into_column_major(), vec![1.0, 2.0]);

    let p = [0, 0];
    let i: [i32; 0] = [];
    let x: [f64; 0] = [];
    let obj = RobjMatrix::DgCMatrix { nrows: 1, ncols: 1, p: Some(&p[..]), i: Some(&i[..]), x: Some(&x[..]) };
    assert_eq!(dense_matrix_from_robj(obj, "X").unwrap_err(), ModelError::SparseNotSupported { role: "X".to_string() });

    let obj: RobjMatrix<'_, f64> = RobjMatrix::Other { nrows: 1, ncols: 1 };
    assert_eq!(dense_matrix_from_robj(obj, "z").unwrap_err(), ModelError::NotDenseMatrix { role: "z".to_string() });

    let obj: RobjMatrix<'_, f64> = RobjMatrix::Matrix { nrows: 1, ncols: 1, real_values: None };
    assert_eq!(dense_matrix_from_robj(obj, "x").unwrap_err(), ModelError::DenseNotReal);
}

#[test]
fn numeric_vector_or_matrix_shapes() {
    let m = numeric_vector_or_matrix_from_robj(vec![1.0, 2.0, 3.0, 4.0], None, "y", 1).unwrap();
    assert_eq!((m.nrows(), m.ncols()), (4, 1));
    let m = numeric_vector_or_matrix_from_robj(vec![1.0, 2.0, 3.0, 4.0], None, "y", 2).unwrap();
    assert_eq!((m.nrows(), m.ncols()), (2, 2));
    assert_eq!(*m.get(1, 1), 4.0);
    let m = numeric_vector_or_matrix_from_robj(vec![1.0, 2.0, 3.0, 4.0, 5.0, 6.0], Some((3, 2)), "Y", 1).unwrap();
    assert_eq!((m.nrows(), m.ncols()), (3, 2));
}

#[test]
fn numeric_vector_or_matrix_errors() {
    assert_eq!(
        numeric_vector_or_matrix_from_robj(vec![1.0, 2.0, 3.0], None, "y", 2).unwrap_err(),
        ModelError::IncompatibleDefaultNcols { role: "y".to_string(), len: 3, default_ncols: 2 }
    );
    assert_eq!(
        numeric_vector_or_matrix_from_robj(vec![1.0], None, "y", 0).unwrap_err(),
        ModelError::IncompatibleDefaultNcols { role: "y".to_string(), len: 1, default_ncols: 0 }
    );
    assert_eq!(
        numeric_vector_or_matrix_from_robj(vec![1.0, 2.0, 3.0], Some((2, 2)), "Y", 1).unwrap_err(),
        ModelError::ShapeLengthMismatch { role: "Y".to_string(), len: 3, nrows: 2, ncols: 2 }
    );
}

#[test]
fn optional_vector_defaults_and_checks() {
    assert_eq!(optional_numeric_vector_from_robj(None, 3, 1.0, "weights").unwrap(), vec![1.0, 1.0, 1.0]);
    assert_eq!(optional_numeric_vector_from_robj(None, 0, 0.0, "offset").unwrap(), Vec::<f64>::new());
    assert_eq!(optional_numeric_vector_from_robj(Some(vec![0.5, 2.0]), 2, 1.0, "weights").unwrap(), vec![0.5, 2.0]);
    assert_eq!(
        optional_numeric_vector_from_robj(Some(vec![0.5]), 2, 1.0, "offset").unwrap_err(),
        ModelError::VectorLengthMismatch { role: "offset".to_string(), len: 1, expected: 2 }
    );
}
