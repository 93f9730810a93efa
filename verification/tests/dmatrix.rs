use treerite::DMatrix;
use treerite::TreeRiteError;

#[test]
fn dense_shape_is_reported_back() {
    let m = DMatrix::<f32>::from_dense_shape(5, 7);
    assert_eq!(m.nrows(), Ok(5));
    assert_eq!(m.ncols(), Ok(7));
}

#[test]
fn slice_yields_single_row() {
    let data: [f32; 4] = [1.0, 2.0, 3.0, 4.0];
    let m = DMatrix::from_slice(&data);
    assert_eq!(m.nrows(), Ok(1));
    assert_eq!(m.ncols(), Ok(4));
}

#[test]
fn slice_with_cols_divides_evenly() {
    let data: [f64; 6] = [1.0, 2.0, 3.0, 4.0, 5.0, 6.0];
    let m = DMatrix::from_slice_with_cols(&data, 3).unwrap();
    assert_eq!(m.nrows(), Ok(2));
    assert_eq!(m.ncols(), Ok(3));
    let single = DMatrix::from_slice_with_cols(&data, 6).unwrap();
    assert_eq!(single.nrows(), Ok(1));
    assert_eq!(single.ncols(), Ok(6));
}

#[test]
fn slice_with_cols_rejects_uneven_count() {
    let data: [f64; 6] = [1.0, 2.0, 3.0, 4.0, 5.0, 6.0];
    assert!(matches!(
        DMatrix::from_slice_with_cols(&data, 4),
        Err(TreeRiteError::CError(_))
    ));
    assert!(matches!(
        DMatrix::from_slice_with_cols(&data, 0),
        Err(TreeRiteError::CError(_))
    ));
}

#[test]
fn well_formed_csr_reports_given_counts() {
    // 3 rows x 4 columns, 5 stored values:
    // row 0: cols 0 and 2; row 1: empty; row 2: cols 1, 2, 3.
    let headers: [u64; 4] = [0, 2, 2, 5];
    let indices: [u32; 5] = [0, 2, 1, 2, 3];
    let data: [f32; 5] = [1.0, 2.0, 3.0, 4.0, 5.0];
    let m = DMatrix::from_csr_format(&headers, &indices, &data, 3, 4).unwrap();
    assert_eq!(m.nrows(), Ok(3));
    assert_eq!(m.ncols(), Ok(4));
}

#[test]
fn malformed_csr_is_an_error_not_a_crash() {
    let data: [f32; 5] = [1.0, 2.0, 3.0, 4.0, 5.0];
    // Header count does not match the row count.
    let r = DMatrix::from_csr_format(&[0, 2, 5], &[0, 2, 1, 2, 3], &data, 3, 4);
    assert!(matches!(r, Err(TreeRiteError::CError(_))));
    // Offsets decrease.
    let r = DMatrix::from_csr_format(&[0, 3, 2, 5], &[0, 2, 1, 2, 3], &data, 3, 4);
    assert!(matches!(r, Err(TreeRiteError::CError(_))));
    // First offset is not zero.
    let r = DMatrix::from_csr_format(&[1, 2, 2, 5], &[0, 2, 1, 2, 3], &data, 3, 4);
    assert!(matches!(r, Err(TreeRiteError::CError(_))));
    // Last offset does not match the number of stored values.
    let r = DMatrix::from_csr_format(&[0, 2, 2, 4], &[0, 2, 1, 2, 3], &data, 3, 4);
    assert!(matches!(r, Err(TreeRiteError::CError(_))));
    // A column index out of range.
    let r = DMatrix::from_csr_format(&[0, 2, 2, 5], &[0, 2, 1, 4, 3], &data, 3, 4);
    assert!(matches!(r, Err(TreeRiteError::CError(_))));
    // Indices and values misaligned.
    let r = DMatrix::from_csr_format(&[0, 2, 2, 5], &[0, 2, 1, 2], &data, 3, 4);
    assert!(matches!(r, Err(TreeRiteError::CError(_))));
}

#[test]
fn uint32_elements_are_supported() {
    let data: [u32; 6] = [1, 2, 3, 4, 5, 6];
    let m = DMatrix::from_slice_with_cols(&data, 2).unwrap();
    assert_eq!(m.nrows(), Ok(3));
    assert_eq!(m.ncols(), Ok(2));
}
