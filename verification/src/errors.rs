//! The service's error taxonomy: backend faults, status classes, and the
//! response body every error path produces.

use vstd::prelude::*;
use vstd::string::*;

verus! {

/// Where in the backend pipeline an inference attempt failed. Each stage
/// prefixes the outward message differently, so a caller can tell tensor
/// construction apart from execution or output extraction.
#[derive(Clone, Copy, Debug, PartialEq, Eq, Structural)]
pub enum InferenceStage {
    InputConstruction,
    InputConversion,
    Execution,
    OutputExtraction,
}

impl InferenceStage {
    pub open spec fn spec_prefix(self) -> Seq<char> {
        match self {
            InferenceStage::InputConstruction => "Failed to process input: "@,
            InferenceStage::InputConversion => "Failed to prepare model input: "@,
            InferenceStage::Execution => "Model inference failed: "@,
            InferenceStage::OutputExtraction => "Failed to extract prediction: "@,
        }
    }

    pub fn prefix(&self) -> (s: &'static str)
        ensures
            s@ == self.spec_prefix(),
    {
        match self {
            InferenceStage::InputConstruction => "Failed to process input: ",
            InferenceStage::InputConversion => "Failed to prepare model input: ",
            InferenceStage::Execution => "Model inference failed: ",
            InferenceStage::OutputExtraction => "Failed to extract prediction: ",
        }
    }
}

/// A backend-caused fault: fatal to the one request it arose in, never to the
/// process. `detail` carries the underlying engine's own description.
#[derive(Debug)]
pub struct InferenceError {
    pub stage: InferenceStage,
    pub detail: String,
}

impl InferenceError {
    pub open spec fn spec_message(self) -> Seq<char> {
        self.stage.spec_prefix() + self.detail@
    }

    pub fn message(&self) -> (s: String)
        ensures
            s@ == self.spec_message(),
    {
        let mut s = String::from_str(self.stage.prefix());
        s.append(self.detail.as_str());
        s
    }
}

/// Whether a failure is the client's (bad input) or the server's (inference
/// broke).
#[derive(Clone, Copy, Debug, PartialEq, Eq, Structural)]
pub enum StatusClass {
    BadRequest,
    InternalServerError,
}

impl StatusClass {
    pub fn code(&self) -> (c: u16)
        ensures
            self is BadRequest ==> c == 400,
            self is InternalServerError ==> c == 500,
    {
        match self {
            StatusClass::BadRequest => 400,
            StatusClass::InternalServerError => 500,
        }
    }
}

/// The body every error path produces: a message and the model type, so a
/// caller can tell which service rejected what.
#[derive(Debug)]
pub struct ErrorResponse {
    pub error: String,
    pub model_type: String,
}

/// Mathematical image of an `ErrorResponse`.
pub struct ErrorResponseView {
    pub error: Seq<char>,
    pub model_type: Seq<char>,
}

impl View for ErrorResponse {
    type V = ErrorResponseView;

    open spec fn view(&self) -> ErrorResponseView {
        ErrorResponseView { error: self.error@, model_type: self.model_type@ }
    }
}

/// A finished error outcome of `predict`: the status class to answer with and
/// the body to send.
#[derive(Debug)]
pub struct ServiceFailure {
    pub status: StatusClass,
    pub body: ErrorResponse,
}

/// Mathematical image of a `ServiceFailure`.
pub struct ServiceFailureView {
    pub status: StatusClass,
    pub body: ErrorResponseView,
}

impl View for ServiceFailure {
    type V = ServiceFailureView;

    open spec fn view(&self) -> ServiceFailureView {
        ServiceFailureView { status: self.status, body: self.body@ }
    }
}

} // verus!
