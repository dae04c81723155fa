//! The orchestrator end to end: health and discovery readouts, the full mock
//! pipelines, error mapping, and repeatability.

use prediction_service::errors::InferenceError;
use prediction_service::errors::InferenceStage;
use prediction_service::errors::StatusClass;
use prediction_service::response::PredictionResult;
use prediction_service::response::PredictionResponse;
use prediction_service::service::PredictionService;
use prediction_service::variant::ModelVariant;

fn bits(features: &[f32]) -> Vec<u32> {
    features.iter().map(|f| f.to_bits()).collect()
}

fn sum_bits(features: &[f32]) -> u32 {
    features.iter().sum::<f32>().to_bits()
}

#[test]
fn health_reports_static_configuration() {
    let classification = PredictionService::new(ModelVariant::Classification, "pod-1".to_string());
    let h = classification.health();
    assert_eq!(h.status, "healthy");
    assert_eq!(h.model_type, "classification");
    assert_eq!(h.pod_id, "pod-1");
    assert_eq!(h.features_expected, 4);

    let regression = PredictionService::new(ModelVariant::Regression, "pod-2".to_string());
    let h = regression.health();
    assert_eq!(h.model_type, "regression");
    assert_eq!(h.features_expected, 3);
}

#[test]
fn health_unaffected_by_prior_requests() {
    let service = PredictionService::new(ModelVariant::Classification, "pod-1".to_string());
    let before = service.health();
    let _ = service.predict_mock_classification(bits(&[9.0, 9.0, 9.0, 9.0]), sum_bits(&[9.0; 4]));
    let _ = service.predict_mock_classification(bits(&[1.0]), 0);
    let after = service.health();
    assert_eq!(before.status, after.status);
    assert_eq!(before.model_type, after.model_type);
    assert_eq!(before.pod_id, after.pod_id);
    assert_eq!(before.features_expected, 4);
    assert_eq!(after.features_expected, 4);
}

#[test]
fn describe_names_the_service_and_endpoints() {
    let service = PredictionService::new(ModelVariant::Classification, "pod-1".to_string());
    let d = service.describe();
    assert_eq!(d.service, "classification-api");
    assert_eq!(d.version, "0.1.0");
    assert_eq!(d.health_endpoint, "/health");
    assert_eq!(d.predict_endpoint, "/predict");

    let service = PredictionService::new(ModelVariant::Regression, "pod-2".to_string());
    assert_eq!(service.describe().service, "regression-api");
}

#[test]
fn mock_classification_pipeline_end_to_end() {
    let service = PredictionService::new(ModelVariant::Classification, "pod-7".to_string());
    let features = [1.0f32, 2.0, 3.0, 4.0];
    let response = service
        .predict_mock_classification(bits(&features), sum_bits(&features))
        .unwrap();
    assert_eq!(response.model_type, "classification");
    assert_eq!(response.pod_id, "pod-7");
    match response.result {
        PredictionResult::Classification { class, probability_bits } => {
            assert_eq!(class, 0);
            let probs: Vec<f32> = probability_bits.iter().map(|b| f32::from_bits(*b)).collect();
            assert_eq!(probs, vec![0.8, 0.2]);
        }
        PredictionResult::Regression { .. } => panic!("wrong result shape"),
    }
}

#[test]
fn mock_regression_pipeline_end_to_end() {
    let service = PredictionService::new(ModelVariant::Regression, "pod-8".to_string());
    let features = [1.0f32, 2.0, 3.0];
    let mean = features.iter().sum::<f32>() / features.len() as f32;
    let response = service.predict_mock_regression(bits(&features), mean.to_bits()).unwrap();
    assert_eq!(response.model_type, "regression");
    assert_eq!(response.pod_id, "pod-8");
    match response.result {
        PredictionResult::Regression { value_bits } => assert_eq!(f32::from_bits(value_bits), 2.0),
        PredictionResult::Classification { .. } => panic!("wrong result shape"),
    }
}

#[test]
fn mock_pipeline_rejects_wrong_length() {
    let service = PredictionService::new(ModelVariant::Classification, "pod-7".to_string());
    let failure = service
        .predict_mock_classification(bits(&[1.0, 2.0, 3.0]), sum_bits(&[1.0, 2.0, 3.0]))
        .unwrap_err();
    assert!(matches!(failure.status, StatusClass::BadRequest));
    assert_eq!(failure.body.error, "Expected 4 features, got 3");
    assert_eq!(failure.body.model_type, "classification");
}

#[test]
fn inference_failure_maps_to_server_error() {
    let service = PredictionService::new(ModelVariant::Regression, "pod-9".to_string());
    let failure = service.inference_failure(InferenceError {
        stage: InferenceStage::Execution,
        detail: "engine unavailable".to_string(),
    });
    assert!(matches!(failure.status, StatusClass::InternalServerError));
    assert_eq!(failure.status.code(), 500);
    assert_eq!(failure.body.error, "Model inference failed: engine unavailable");
    assert_eq!(failure.body.model_type, "regression");
}

#[test]
fn every_inference_stage_has_its_own_prefix() {
    let cases = [
        (InferenceStage::InputConstruction, "Failed to process input: x"),
        (InferenceStage::InputConversion, "Failed to prepare model input: x"),
        (InferenceStage::Execution, "Model inference failed: x"),
        (InferenceStage::OutputExtraction, "Failed to extract prediction: x"),
    ];
    for (stage, expected) in cases {
        let e = InferenceError { stage, detail: "x".to_string() };
        assert_eq!(e.message(), expected);
    }
}

fn assert_bit_identical(a: &PredictionResponse, b: &PredictionResponse) {
    assert_eq!(a.model_type, b.model_type);
    assert_eq!(a.pod_id, b.pod_id);
    match (&a.result, &b.result) {
        (
            PredictionResult::Classification { class: c1, probability_bits: p1 },
            PredictionResult::Classification { class: c2, probability_bits: p2 },
        ) => {
            assert_eq!(c1, c2);
            assert_eq!(p1, p2);
        }
        (
            PredictionResult::Regression { value_bits: v1 },
            PredictionResult::Regression { value_bits: v2 },
        ) => assert_eq!(v1, v2),
        _ => panic!("result shapes differ"),
    }
}

#[test]
fn repeated_identical_requests_answer_bit_identically() {
    let service = PredictionService::new(ModelVariant::Classification, "pod-1".to_string());
    let features = [2.5f32, 2.5, 2.5, 3.0];
    let first = service
        .predict_mock_classification(bits(&features), sum_bits(&features))
        .unwrap();
    for _ in 0..5 {
        let again = service
            .predict_mock_classification(bits(&features), sum_bits(&features))
            .unwrap();
        assert_bit_identical(&first, &again);
    }
}

#[test]
fn request_order_does_not_change_any_answer() {
    // The same backend instance, two batches of requests in opposite orders:
    // every input gets the same answer either way.
    let service = PredictionService::new(ModelVariant::Classification, "pod-1".to_string());
    let inputs: Vec<[f32; 4]> = vec![
        [1.0, 2.0, 3.0, 4.0],
        [3.0, 3.0, 3.0, 3.0],
        [0.0, 0.0, 0.0, 0.0],
        [f32::NAN, 1.0, 1.0, 1.0],
    ];
    let forward: Vec<_> = inputs
        .iter()
        .map(|f| service.predict_mock_classification(bits(f), sum_bits(f)).unwrap())
        .collect();
    let backward: Vec<_> = inputs
        .iter()
        .rev()
        .map(|f| service.predict_mock_classification(bits(f), sum_bits(f)).unwrap())
        .collect();
    for (a, b) in forward.iter().zip(backward.iter().rev()) {
        assert_bit_identical(a, b);
    }
}
