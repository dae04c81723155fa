//! The prediction service: validation, backend invocation, response shaping
//! and error mapping, around a static variant descriptor and instance
//! identity.
//!
//! A request runs in two steps. `begin_predict` is the shape gate: it either
//! rejects the raw features as a client error or releases a validated
//! `FeatureVector` — the only value a backend can be invoked with, so no
//! backend ever sees a mismatched vector. The backend then runs (the mock
//! rules in this crate, or an execution engine outside it), and its result or
//! fault comes back through `complete_predict` or `inference_failure`. For the
//! mock backends, `predict_mock_classification` and `predict_mock_regression`
//! run the whole pipeline in one verified call.

use vstd::prelude::*;
use vstd::string::*;

use crate::errors::ErrorResponse;
use crate::errors::ErrorResponseView;
use crate::errors::InferenceError;
use crate::errors::InferenceStage;
use crate::errors::ServiceFailure;
use crate::errors::ServiceFailureView;
use crate::errors::StatusClass;
use crate::features::FeatureVector;
use crate::features::ValidationError;
use crate::features::spec_validation_message;
use crate::features::validate_features;
use crate::mock::mock_classification_infer;
use crate::mock::mock_regression_infer;
use crate::mock::spec_mock_classification;
use crate::mock::spec_mock_regression;
use crate::response::HealthResponse;
use crate::response::HealthResponseView;
use crate::response::PredictionResponse;
use crate::response::PredictionResponseView;
use crate::response::PredictionResult;
use crate::response::PredictionResultView;
use crate::response::ServiceDescription;
use crate::response::ServiceDescriptionView;
use crate::tensor::Tensor2;
use crate::variant::ModelVariant;

verus! {

/// One deployed service: its model variant and its instance identity. Both are
/// fixed at startup; every request reads the same configuration.
pub struct PredictionService {
    variant: ModelVariant,
    pod_id: String,
}

/// Mathematical image of a `PredictionService`.
pub struct PredictionServiceView {
    pub variant: ModelVariant,
    pub pod_id: Seq<char>,
}

impl View for PredictionService {
    type V = PredictionServiceView;

    closed spec fn view(&self) -> PredictionServiceView {
        PredictionServiceView { variant: self.variant, pod_id: self.pod_id@ }
    }
}

/// What the shape gate decides for one request: invoke a backend on the
/// validated vector, or answer a client error without invoking anything.
pub enum PredictStep {
    Invoke(FeatureVector),
    Rejected(ServiceFailure),
}

/// Mathematical image of a `PredictStep`.
pub enum PredictStepView {
    Invoke(Seq<u32>),
    Rejected(ServiceFailureView),
}

impl View for PredictStep {
    type V = PredictStepView;

    open spec fn view(&self) -> PredictStepView {
        match self {
            PredictStep::Invoke(fv) => PredictStepView::Invoke(fv@),
            PredictStep::Rejected(f) => PredictStepView::Rejected(f@),
        }
    }
}

/// The client-error answer to a feature-count mismatch.
pub open spec fn spec_validation_failure(
    s: PredictionServiceView,
    e: ValidationError,
) -> ServiceFailureView {
    ServiceFailureView {
        status: StatusClass::BadRequest,
        body: ErrorResponseView {
            error: spec_validation_message(e.expected as nat, e.actual as nat),
            model_type: s.variant.spec_label(),
        },
    }
}

/// The server-error answer to a backend fault.
pub open spec fn spec_inference_failure(
    s: PredictionServiceView,
    stage: InferenceStage,
    detail: Seq<char>,
) -> ServiceFailureView {
    ServiceFailureView {
        status: StatusClass::InternalServerError,
        body: ErrorResponseView {
            error: stage.spec_prefix() + detail,
            model_type: s.variant.spec_label(),
        },
    }
}

/// The successful answer wrapping a backend result with service identity.
pub open spec fn spec_complete_predict(
    s: PredictionServiceView,
    result: PredictionResultView,
) -> PredictionResponseView {
    PredictionResponseView {
        result,
        model_type: s.variant.spec_label(),
        pod_id: s.pod_id,
    }
}

/// What the shape gate decides: invoke on a vector of the expected length,
/// reject any other.
pub open spec fn spec_begin_predict(s: PredictionServiceView, raw: Seq<u32>) -> PredictStepView {
    if raw.len() == s.variant.spec_expected_features() {
        PredictStepView::Invoke(raw)
    } else {
        PredictStepView::Rejected(
            spec_validation_failure(
                s,
                ValidationError {
                    expected: s.variant.spec_expected_features(),
                    actual: raw.len() as usize,
                },
            ),
        )
    }
}

/// The health readout: pure static configuration and identity.
pub open spec fn spec_health(s: PredictionServiceView) -> HealthResponseView {
    HealthResponseView {
        status: "healthy"@,
        model_type: s.variant.spec_label(),
        pod_id: s.pod_id,
        features_expected: s.variant.spec_expected_features(),
    }
}

/// The discovery answer on the root path.
pub open spec fn spec_describe(s: PredictionServiceView) -> ServiceDescriptionView {
    ServiceDescriptionView {
        service: s.variant.spec_service_name(),
        version: "0.1.0"@,
        health_endpoint: "/health"@,
        predict_endpoint: "/predict"@,
    }
}

/// The whole mock-classification pipeline on one request: reject a mismatched
/// vector, otherwise answer the classification mock's result for the features'
/// sum.
pub open spec fn spec_mock_classification_predict(
    s: PredictionServiceView,
    raw: Seq<u32>,
    sum_bits: u32,
) -> Result<PredictionResponseView, ServiceFailureView> {
    match spec_begin_predict(s, raw) {
        PredictStepView::Invoke(_) => Ok(spec_complete_predict(s, spec_mock_classification(sum_bits))),
        PredictStepView::Rejected(f) => Err(f),
    }
}

/// The whole mock-regression pipeline on one request: reject a mismatched
/// vector, otherwise answer the features' mean as the prediction.
pub open spec fn spec_mock_regression_predict(
    s: PredictionServiceView,
    raw: Seq<u32>,
    mean_bits: u32,
) -> Result<PredictionResponseView, ServiceFailureView> {
    match spec_begin_predict(s, raw) {
        PredictStepView::Invoke(_) => Ok(spec_complete_predict(s, spec_mock_regression(mean_bits))),
        PredictStepView::Rejected(f) => Err(f),
    }
}

impl PredictionService {
    /// The one state transition the service has: uninitialized to ready, at
    /// startup. Thereafter the configuration never changes.
    pub fn new(variant: ModelVariant, pod_id: String) -> (s: PredictionService)
        ensures
            s@ == (PredictionServiceView { variant, pod_id: pod_id@ }),
    {
        PredictionService { variant, pod_id }
    }

    pub fn variant(&self) -> (v: ModelVariant)
        ensures
            v == self@.variant,
    {
        self.variant
    }

    pub fn pod_id(&self) -> (p: &String)
        ensures
            p@ == self@.pod_id,
    {
        &self.pod_id
    }

    /// The shape gate. A vector of the expected length is released for backend
    /// invocation unchanged; any other length is answered as a client error
    /// naming both counts, and no vector is released.
    pub fn begin_predict(&self, raw: Vec<u32>) -> (step: PredictStep)
        ensures
            step@ == spec_begin_predict(self@, raw@),
            step is Invoke <==> raw@.len() == self@.variant.spec_expected_features(),
    {
        match validate_features(raw, self.variant.expected_features()) {
            Ok(fv) => PredictStep::Invoke(fv),
            Err(e) => PredictStep::Rejected(self.validation_failure(e)),
        }
    }

    /// Maps a feature-count mismatch to the client-error response.
    pub fn validation_failure(&self, e: ValidationError) -> (f: ServiceFailure)
        ensures
            f@ == spec_validation_failure(self@, e),
    {
        ServiceFailure {
            status: StatusClass::BadRequest,
            body: ErrorResponse { error: e.message(), model_type: self.variant.label() },
        }
    }

    /// Maps a backend fault to the server-error response. The fault stays
    /// local to its request: nothing of the service changes.
    pub fn inference_failure(&self, e: InferenceError) -> (f: ServiceFailure)
        ensures
            f@ == spec_inference_failure(self@, e.stage, e.detail@),
    {
        ServiceFailure {
            status: StatusClass::InternalServerError,
            body: ErrorResponse { error: e.message(), model_type: self.variant.label() },
        }
    }

    /// Wraps a backend result with the service's identity.
    pub fn complete_predict(&self, result: PredictionResult) -> (r: PredictionResponse)
        ensures
            r@ == spec_complete_predict(self@, result@),
    {
        PredictionResponse {
            result,
            model_type: self.variant.label(),
            pod_id: self.pod_id.clone(),
        }
    }

    /// Reads a regression prediction out of a model output tensor: the scalar
    /// at index 0 of the first batch row. An empty tensor is an
    /// output-extraction fault.
    pub fn extract_regression_result(&self, t: &Tensor2) -> (r: Result<
        PredictionResult,
        InferenceError,
    >)
        ensures
            match r {
                Ok(p) => {
                    &&& t.spec_rows() >= 1
                    &&& t.spec_cols() >= 1
                    &&& p@ == (PredictionResultView::Regression { value_bits: t@[0] })
                },
                Err(e) => {
                    &&& (t.spec_rows() == 0 || t.spec_cols() == 0)
                    &&& e.stage == InferenceStage::OutputExtraction
                    &&& e.detail@ == "output tensor is empty"@
                },
            },
    {
        match t.first_scalar() {
            Ok(bits) => Ok(PredictionResult::Regression { value_bits: bits }),
            Err(e) => Err(e),
        }
    }

    /// The whole request pipeline against the classification mock. `sum_bits`
    /// is the bit pattern of the floating-point sum of the raw features,
    /// computed by the caller; it is read only when the vector passes the
    /// shape gate.
    pub fn predict_mock_classification(&self, raw: Vec<u32>, sum_bits: u32) -> (r: Result<
        PredictionResponse,
        ServiceFailure,
    >)
        ensures
            match r {
                Ok(resp) => spec_mock_classification_predict(self@, raw@, sum_bits) == Ok::<
                    PredictionResponseView,
                    ServiceFailureView,
                >(resp@),
                Err(f) => spec_mock_classification_predict(self@, raw@, sum_bits) == Err::<
                    PredictionResponseView,
                    ServiceFailureView,
                >(f@),
            },
    {
        match self.begin_predict(raw) {
            PredictStep::Invoke(_fv) => Ok(
                self.complete_predict(mock_classification_infer(sum_bits)),
            ),
            PredictStep::Rejected(f) => Err(f),
        }
    }

    /// The whole request pipeline against the regression mock. `mean_bits` is
    /// the bit pattern of the floating-point mean of the raw features,
    /// computed by the caller; it is read only when the vector passes the
    /// shape gate.
    pub fn predict_mock_regression(&self, raw: Vec<u32>, mean_bits: u32) -> (r: Result<
        PredictionResponse,
        ServiceFailure,
    >)
        ensures
            match r {
                Ok(resp) => spec_mock_regression_predict(self@, raw@, mean_bits) == Ok::<
                    PredictionResponseView,
                    ServiceFailureView,
                >(resp@),
                Err(f) => spec_mock_regression_predict(self@, raw@, mean_bits) == Err::<
                    PredictionResponseView,
                    ServiceFailureView,
                >(f@),
            },
    {
        match self.begin_predict(raw) {
            PredictStep::Invoke(_fv) => Ok(self.complete_predict(mock_regression_infer(mean_bits))),
            PredictStep::Rejected(f) => Err(f),
        }
    }

    /// The health readout: confirms the service is up and configured, without
    /// exercising any backend.
    pub fn health(&self) -> (h: HealthResponse)
        ensures
            h@ == spec_health(self@),
    {
        HealthResponse {
            status: String::from_str("healthy"),
            model_type: self.variant.label(),
            pod_id: self.pod_id.clone(),
            features_expected: self.variant.expected_features(),
        }
    }

    /// The discovery answer on the root path.
    pub fn describe(&self) -> (d: ServiceDescription)
        ensures
            d@ == spec_describe(self@),
    {
        ServiceDescription {
            service: self.variant.service_name(),
            version: String::from_str("0.1.0"),
            health_endpoint: String::from_str("/health"),
            predict_endpoint: String::from_str("/predict"),
        }
    }
}

/// Law: a feature vector of the expected length is never rejected — the shape
/// gate releases it, unchanged, for backend invocation.
pub proof fn lemma_correct_length_never_rejected(s: PredictionServiceView, raw: Seq<u32>)
    requires
        raw.len() == s.variant.spec_expected_features(),
    ensures
        spec_begin_predict(s, raw) == PredictStepView::Invoke(raw),
{
}

/// Law: a feature vector of any other length is rejected as a client error
/// whose message names the expected and the actual count — and the rejected
/// step holds no vector, so no backend can be invoked from it.
pub proof fn lemma_wrong_length_rejected(s: PredictionServiceView, raw: Seq<u32>)
    requires
        raw.len() != s.variant.spec_expected_features(),
        raw.len() <= usize::MAX,
    ensures
        spec_begin_predict(s, raw) matches PredictStepView::Rejected(f)
            && f.status == StatusClass::BadRequest
            && f.body.error == spec_validation_message(
            s.variant.spec_expected_features() as nat,
            raw.len(),
        )
            && f.body.model_type == s.variant.spec_label(),
{
}

/// Law: the health readout reports the configured feature count — 4 for a
/// classification service, 3 for a regression service — whatever the backend
/// flavor and whatever requests ran before: it is a function of the static
/// configuration and identity alone, there being nothing else it could read.
pub proof fn lemma_health_reports_configuration(s: PredictionServiceView)
    ensures
        spec_health(s).features_expected == s.variant.spec_expected_features(),
        s.variant == ModelVariant::Classification ==> spec_health(s).features_expected == 4,
        s.variant == ModelVariant::Regression ==> spec_health(s).features_expected == 3,
{
}

/// Law: the pipeline against the classification mock is deterministic — two
/// runs on the same service, the same raw features and the same feature sum
/// answer identically, field for field and bit for bit.
pub proof fn lemma_mock_classification_predict_idempotent(
    s: PredictionServiceView,
    raw: Seq<u32>,
    sum_bits: u32,
    a: Result<PredictionResponseView, ServiceFailureView>,
    b: Result<PredictionResponseView, ServiceFailureView>,
)
    requires
        a == spec_mock_classification_predict(s, raw, sum_bits),
        b == spec_mock_classification_predict(s, raw, sum_bits),
    ensures
        a == b,
{
}

/// Law: the pipeline against the regression mock is deterministic — two runs
/// on the same service, the same raw features and the same feature mean answer
/// identically, field for field and bit for bit.
pub proof fn lemma_mock_regression_predict_idempotent(
    s: PredictionServiceView,
    raw: Seq<u32>,
    mean_bits: u32,
    a: Result<PredictionResponseView, ServiceFailureView>,
    b: Result<PredictionResponseView, ServiceFailureView>,
)
    requires
        a == spec_mock_regression_predict(s, raw, mean_bits),
        b == spec_mock_regression_predict(s, raw, mean_bits),
    ensures
        a == b,
{
}

} // verus!
