use treerite::DMatrix;
use treerite::DataType;
use treerite::Predictor;
use treerite::TreeRiteError;

fn two_class_predictor() -> Predictor {
    Predictor::from_metadata(
        4,
        2,
        String::from("softmax"),
        DataType::Float32,
        DataType::Float32,
    )
}

#[test]
fn metadata_queries_answer_from_the_load() {
    let p = two_class_predictor();
    assert_eq!(p.query_num_feature(), Ok(4));
    assert_eq!(p.query_num_class(), Ok(2));
    assert_eq!(p.query_pred_transform().unwrap(), "softmax");
    assert_eq!(p.query_leaf_output_type(), Ok(DataType::Float32));
    assert_eq!(p.query_threshold_type(), Ok(DataType::Float32));
}

#[test]
fn result_size_is_rows_times_classes() {
    let p = two_class_predictor();
    let m = DMatrix::<f32>::from_dense_shape(3, 4);
    assert_eq!(p.query_result_size(&m), Ok(6));
}

#[test]
fn result_size_overflow_is_an_error() {
    let p = Predictor::from_metadata(
        4,
        u64::MAX,
        String::from("identity"),
        DataType::Float64,
        DataType::Float64,
    );
    let m = DMatrix::<f64>::from_dense_shape(2, 4);
    assert!(matches!(p.query_result_size(&m), Err(TreeRiteError::CError(_))));
}

#[test]
fn feature_count_mismatch_fails_before_any_output() {
    let p = two_class_predictor();
    let narrow = DMatrix::<f32>::from_dense_shape(3, 3);
    let mut out = p.create_output_vector(&narrow).unwrap();
    let r = p.predict_batch(&narrow, &mut out);
    match r {
        Err(TreeRiteError::CError(msg)) => {
            assert_eq!(msg, "feature count of the data matrix does not match the predictor");
        }
        other => panic!("expected a native-reported error, got {:?}", other),
    }
    assert!(!out.populated);
}

#[test]
fn undersized_output_vector_is_rejected() {
    let p = two_class_predictor();
    let m = DMatrix::<f32>::from_dense_shape(3, 4);
    let wide = DMatrix::<f32>::from_dense_shape(5, 4);
    let mut out = p.create_output_vector(&wide).unwrap();
    let r = p.predict_batch(&m, &mut out);
    assert!(matches!(r, Err(TreeRiteError::CError(_))));
    assert!(!out.populated);
}

#[test]
fn two_class_batch_prediction_populates_the_buffer() {
    // A two-class model over four features, a 3 x 4 matrix of 32-bit floats.
    let p = two_class_predictor();
    let values: [f32; 12] = [
        0.5, 1.0, 1.5, 2.0,
        2.5, 3.0, 3.5, 4.0,
        4.5, 5.0, 5.5, 6.0,
    ];
    let m = DMatrix::from_slice_with_cols(&values, 4).unwrap();
    assert_eq!(m.nrows(), Ok(3));
    assert_eq!(m.ncols(), Ok(4));
    let size = p.query_result_size(&m).unwrap();
    assert_eq!(size, 6);
    let mut out = p.create_output_vector(&m).unwrap();
    assert_eq!(out.size, size);
    assert!(!out.populated);
    let written = p.predict_batch(&m, &mut out).unwrap();
    assert_eq!(written, 6);
    assert!(out.populated);
    assert_eq!(out.size, 6);
}
