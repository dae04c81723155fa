//! Tensor construction and output extraction, plus the decimal rendering the
//! error messages rely on.

use prediction_service::errors::InferenceStage;
use prediction_service::features::validate_features;
use prediction_service::response::PredictionResult;
use prediction_service::service::PredictionService;
use prediction_service::tensor::input_tensor;
use prediction_service::tensor::Tensor2;
use prediction_service::text::decimal_string;
use prediction_service::variant::ModelVariant;

fn bits(features: &[f32]) -> Vec<u32> {
    features.iter().map(|f| f.to_bits()).collect()
}

#[test]
fn input_tensor_is_one_batch_row() {
    let raw = bits(&[1.0, 2.0, 3.0]);
    let fv = validate_features(raw.clone(), 3).unwrap();
    let t = input_tensor(&fv);
    assert_eq!(t.rows(), 1);
    assert_eq!(t.cols(), 3);
    assert_eq!(t.data(), &raw);
}

#[test]
fn tensor_shape_must_fit_the_data() {
    assert!(Tensor2::new(1, 3, bits(&[1.0, 2.0, 3.0])).is_some());
    assert!(Tensor2::new(2, 2, bits(&[1.0, 2.0, 3.0])).is_none());
    assert!(Tensor2::new(0, 0, vec![]).is_some());
    assert!(Tensor2::new(usize::MAX, usize::MAX, vec![]).is_none());
}

#[test]
fn first_scalar_reads_index_zero_of_the_first_row() {
    let t = Tensor2::new(1, 1, bits(&[42.5])).unwrap();
    assert_eq!(f32::from_bits(t.first_scalar().unwrap()), 42.5);

    let wide = Tensor2::new(2, 3, bits(&[7.0, 1.0, 2.0, 3.0, 4.0, 5.0])).unwrap();
    assert_eq!(f32::from_bits(wide.first_scalar().unwrap()), 7.0);
}

#[test]
fn empty_output_is_an_extraction_fault() {
    let empty = Tensor2::new(0, 5, vec![]).unwrap();
    let err = empty.first_scalar().unwrap_err();
    assert!(matches!(err.stage, InferenceStage::OutputExtraction));
    assert_eq!(err.message(), "Failed to extract prediction: output tensor is empty");
}

#[test]
fn extraction_feeds_the_regression_result() {
    let service = PredictionService::new(ModelVariant::Regression, "pod-3".to_string());
    let t = Tensor2::new(1, 1, bits(&[2.0])).unwrap();
    match service.extract_regression_result(&t).unwrap() {
        PredictionResult::Regression { value_bits } => assert_eq!(f32::from_bits(value_bits), 2.0),
        PredictionResult::Classification { .. } => panic!("wrong result shape"),
    }
}

#[test]
fn decimal_rendering_is_exact() {
    assert_eq!(decimal_string(0), "0");
    assert_eq!(decimal_string(9), "9");
    assert_eq!(decimal_string(10), "10");
    assert_eq!(decimal_string(12345), "12345");
    assert_eq!(decimal_string(usize::MAX), usize::MAX.to_string());
}
