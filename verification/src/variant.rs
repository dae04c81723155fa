//! The model variant a deployed service process serves: static configuration
//! fixed at startup, never mutated afterwards.

use vstd::prelude::*;
use vstd::string::*;

verus! {

/// Which model a service process serves. One process serves exactly one
/// variant for its whole lifetime.
#[derive(Clone, Copy, Debug, PartialEq, Eq, Structural)]
pub enum ModelVariant {
    Classification,
    Regression,
}

impl ModelVariant {
    /// The feature count every incoming vector must match.
    pub open spec fn spec_expected_features(self) -> usize {
        match self {
            ModelVariant::Classification => 4usize,
            ModelVariant::Regression => 3usize,
        }
    }

    /// The label attached to every response for traceability.
    pub open spec fn spec_label(self) -> Seq<char> {
        match self {
            ModelVariant::Classification => "classification"@,
            ModelVariant::Regression => "regression"@,
        }
    }

    /// The service name reported by the discovery endpoint.
    pub open spec fn spec_service_name(self) -> Seq<char> {
        match self {
            ModelVariant::Classification => "classification-api"@,
            ModelVariant::Regression => "regression-api"@,
        }
    }

    pub fn expected_features(&self) -> (n: usize)
        ensures
            n == self.spec_expected_features(),
    {
        match self {
            ModelVariant::Classification => 4,
            ModelVariant::Regression => 3,
        }
    }

    pub fn label(&self) -> (s: String)
        ensures
            s@ == self.spec_label(),
    {
        match self {
            ModelVariant::Classification => String::from_str("classification"),
            ModelVariant::Regression => String::from_str("regression"),
        }
    }

    pub fn service_name(&self) -> (s: String)
        ensures
            s@ == self.spec_service_name(),
    {
        match self {
            ModelVariant::Classification => String::from_str("classification-api"),
            ModelVariant::Regression => String::from_str("regression-api"),
        }
    }
}

} // verus!
