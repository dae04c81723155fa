//! Feature vectors and the input-shape gate that runs before any backend is
//! invoked.

use vstd::prelude::*;
use vstd::string::*;

use crate::text::spec_decimal;
use crate::text::decimal_string;

verus! {

/// A validated fixed-length numeric input. Each entry is the IEEE-754 bit
/// pattern of one single-precision scalar; values are deliberately not
/// range-checked, so NaN and infinity patterns pass through unmodified.
///
/// Immutable once constructed; `validate_features` is the only constructor.
#[derive(Debug)]
pub struct FeatureVector {
    bits: Vec<u32>,
}

impl View for FeatureVector {
    type V = Seq<u32>;

    closed spec fn view(&self) -> Seq<u32> {
        self.bits@
    }
}

impl FeatureVector {
    pub fn len(&self) -> (n: usize)
        ensures
            n == self@.len(),
    {
        self.bits.len()
    }

    /// The scalars, as bit patterns, in input order.
    pub fn bits(&self) -> (b: &Vec<u32>)
        ensures
            b@ == self@,
    {
        &self.bits
    }
}

/// A feature-count mismatch, caused by the client: the one recoverable,
/// 400-class error of the service.
#[derive(Clone, Copy, Debug, PartialEq, Eq, Structural)]
pub struct ValidationError {
    pub expected: usize,
    pub actual: usize,
}

/// The message a validation failure carries, naming both counts.
pub open spec fn spec_validation_message(expected: nat, actual: nat) -> Seq<char> {
    "Expected "@ + spec_decimal(expected) + " features, got "@ + spec_decimal(actual)
}

impl ValidationError {
    pub fn message(&self) -> (s: String)
        ensures
            s@ == spec_validation_message(self.expected as nat, self.actual as nat),
    {
        let mut s = String::from_str("Expected ");
        let expected_text = decimal_string(self.expected);
        s.append(expected_text.as_str());
        s.append(" features, got ");
        let actual_text = decimal_string(self.actual);
        s.append(actual_text.as_str());
        proof {
            assert(s@ =~= spec_validation_message(self.expected as nat, self.actual as nat));
        }
        s
    }
}

/// The shape gate: returns the vector unchanged when its length matches the
/// expected count, and reports both counts otherwise. Nothing else about the
/// values is checked, and no backend sees a vector that failed here.
pub fn validate_features(raw: Vec<u32>, expected: usize) -> (r: Result<
    FeatureVector,
    ValidationError,
>)
    ensures
        match r {
            Ok(fv) => raw@.len() == expected && fv@ == raw@,
            Err(e) => raw@.len() != expected && e == (ValidationError {
                expected,
                actual: raw@.len() as usize,
            }),
        },
{
    if raw.len() == expected {
        Ok(FeatureVector { bits: raw })
    } else {
        Err(ValidationError { expected, actual: raw.len() })
    }
}

} // verus!
