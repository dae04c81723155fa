//! What the service answers with: prediction results wrapped with service
//! identity, the health readout, and the discovery description.

use vstd::prelude::*;

verus! {

/// What a backend produced, discriminated by model variant. Scalars are
/// IEEE-754 single-precision bit patterns.
#[derive(Debug)]
pub enum PredictionResult {
    /// A predicted class label and the probability distribution over the two
    /// classes, in class order.
    Classification { class: i64, probability_bits: Vec<u32> },
    /// A single predicted scalar.
    Regression { value_bits: u32 },
}

/// Mathematical image of a `PredictionResult`.
pub enum PredictionResultView {
    Classification { class: i64, probability_bits: Seq<u32> },
    Regression { value_bits: u32 },
}

impl View for PredictionResult {
    type V = PredictionResultView;

    open spec fn view(&self) -> PredictionResultView {
        match self {
            PredictionResult::Classification { class, probability_bits } => {
                PredictionResultView::Classification {
                    class: *class,
                    probability_bits: probability_bits@,
                }
            },
            PredictionResult::Regression { value_bits } => {
                PredictionResultView::Regression { value_bits: *value_bits }
            },
        }
    }
}

/// A successful answer: the result plus the serving instance's identity.
#[derive(Debug)]
pub struct PredictionResponse {
    pub result: PredictionResult,
    pub model_type: String,
    pub pod_id: String,
}

/// Mathematical image of a `PredictionResponse`.
pub struct PredictionResponseView {
    pub result: PredictionResultView,
    pub model_type: Seq<char>,
    pub pod_id: Seq<char>,
}

impl View for PredictionResponse {
    type V = PredictionResponseView;

    open spec fn view(&self) -> PredictionResponseView {
        PredictionResponseView {
            result: self.result@,
            model_type: self.model_type@,
            pod_id: self.pod_id@,
        }
    }
}

/// The health readout: a pure copy of static configuration and identity. It
/// never exercises a backend.
#[derive(Debug)]
pub struct HealthResponse {
    pub status: String,
    pub model_type: String,
    pub pod_id: String,
    pub features_expected: usize,
}

/// Mathematical image of a `HealthResponse`.
pub struct HealthResponseView {
    pub status: Seq<char>,
    pub model_type: Seq<char>,
    pub pod_id: Seq<char>,
    pub features_expected: usize,
}

impl View for HealthResponse {
    type V = HealthResponseView;

    open spec fn view(&self) -> HealthResponseView {
        HealthResponseView {
            status: self.status@,
            model_type: self.model_type@,
            pod_id: self.pod_id@,
            features_expected: self.features_expected,
        }
    }
}

/// The discovery answer on the root path: who this service is and where its
/// endpoints live.
#[derive(Debug)]
pub struct ServiceDescription {
    pub service: String,
    pub version: String,
    pub health_endpoint: String,
    pub predict_endpoint: String,
}

/// Mathematical image of a `ServiceDescription`.
pub struct ServiceDescriptionView {
    pub service: Seq<char>,
    pub version: Seq<char>,
    pub health_endpoint: Seq<char>,
    pub predict_endpoint: Seq<char>,
}

impl View for ServiceDescription {
    type V = ServiceDescriptionView;

    open spec fn view(&self) -> ServiceDescriptionView {
        ServiceDescriptionView {
            service: self.service@,
            version: self.version@,
            health_endpoint: self.health_endpoint@,
            predict_endpoint: self.predict_endpoint@,
        }
    }
}

} // verus!
