//! The mock backends: deterministic, side-effect-free stand-ins for a trained
//! model, computed from the same inputs. They never fail, since they call
//! nothing external.
//!
//! The floating-point arithmetic itself (summing or averaging the features)
//! happens outside this crate; its result arrives here as an IEEE-754
//! single-precision bit pattern, and the decision rules below are verified on
//! that representation.

use vstd::prelude::*;

use crate::response::PredictionResult;
use crate::response::PredictionResultView;

verus! {

/// Bit pattern of the classification decision threshold, 10.0.
pub const SUM_THRESHOLD_BITS: u32 = 0x4120_0000;

/// Bit pattern of 0.8, the class-0 probability when the sum stays at or below
/// the threshold.
pub const CLASS0_PROB0_BITS: u32 = 0x3F4C_CCCD;

/// Bit pattern of 0.2, the class-1 probability when the sum stays at or below
/// the threshold.
pub const CLASS0_PROB1_BITS: u32 = 0x3E4C_CCCD;

/// Bit pattern of 0.3, the class-0 probability when the sum exceeds the
/// threshold.
pub const CLASS1_PROB0_BITS: u32 = 0x3E99_999A;

/// Bit pattern of 0.7, the class-1 probability when the sum exceeds the
/// threshold.
pub const CLASS1_PROB1_BITS: u32 = 0x3F33_3333;

/// Bit pattern of positive infinity, the largest non-NaN pattern without the
/// sign bit.
pub const POS_INFINITY_BITS: u32 = 0x7F80_0000;

/// Whether the encoded value compares strictly above 10.0. Non-negative,
/// non-NaN single-precision patterns order exactly as the values they encode,
/// so those above 10.0 are the patterns strictly between the threshold's and
/// positive infinity's, bounds included on the right; every pattern above
/// infinity's is a NaN or carries the sign bit, and neither compares above a
/// positive threshold.
pub open spec fn sum_exceeds_threshold(sum_bits: u32) -> bool {
    SUM_THRESHOLD_BITS < sum_bits <= POS_INFINITY_BITS
}

/// The comparison `sum > 10.0`, decided on the sum's bit pattern.
pub fn exceeds_threshold(sum_bits: u32) -> (r: bool)
    ensures
        r == sum_exceeds_threshold(sum_bits),
{
    SUM_THRESHOLD_BITS < sum_bits && sum_bits <= POS_INFINITY_BITS
}

/// What the classification mock answers for a given feature sum: class 1 with
/// probabilities [0.3, 0.7] when the sum exceeds 10.0, class 0 with
/// probabilities [0.8, 0.2] otherwise.
pub open spec fn spec_mock_classification(sum_bits: u32) -> PredictionResultView {
    if sum_exceeds_threshold(sum_bits) {
        PredictionResultView::Classification {
            class: 1,
            probability_bits: seq![CLASS1_PROB0_BITS, CLASS1_PROB1_BITS],
        }
    } else {
        PredictionResultView::Classification {
            class: 0,
            probability_bits: seq![CLASS0_PROB0_BITS, CLASS0_PROB1_BITS],
        }
    }
}

/// The classification mock. `sum_bits` is the bit pattern of the
/// floating-point sum of the validated features, computed by the caller.
pub fn mock_classification_infer(sum_bits: u32) -> (r: PredictionResult)
    ensures
        r@ == spec_mock_classification(sum_bits),
{
    if exceeds_threshold(sum_bits) {
        let r = PredictionResult::Classification {
            class: 1,
            probability_bits: vec![CLASS1_PROB0_BITS, CLASS1_PROB1_BITS],
        };
        proof {
            assert(r@ =~= spec_mock_classification(sum_bits));
        }
        r
    } else {
        let r = PredictionResult::Classification {
            class: 0,
            probability_bits: vec![CLASS0_PROB0_BITS, CLASS0_PROB1_BITS],
        };
        proof {
            assert(r@ =~= spec_mock_classification(sum_bits));
        }
        r
    }
}

/// What the regression mock answers: the arithmetic mean of the features,
/// unchanged.
pub open spec fn spec_mock_regression(mean_bits: u32) -> PredictionResultView {
    PredictionResultView::Regression { value_bits: mean_bits }
}

/// The regression mock. `mean_bits` is the bit pattern of the floating-point
/// arithmetic mean of the validated features, computed by the caller; the
/// prediction is that mean.
pub fn mock_regression_infer(mean_bits: u32) -> (r: PredictionResult)
    ensures
        r@ == spec_mock_regression(mean_bits),
{
    PredictionResult::Regression { value_bits: mean_bits }
}

/// Law: the classification mock is deterministic — any two results read off
/// the same feature sum are identical, bit for bit.
pub proof fn lemma_mock_classification_deterministic(
    a: PredictionResultView,
    b: PredictionResultView,
    sum_bits: u32,
)
    requires
        a == spec_mock_classification(sum_bits),
        b == spec_mock_classification(sum_bits),
    ensures
        a == b,
{
}

/// Law: the regression mock is deterministic — any two results read off the
/// same feature mean are identical, bit for bit.
pub proof fn lemma_mock_regression_deterministic(
    a: PredictionResultView,
    b: PredictionResultView,
    mean_bits: u32,
)
    requires
        a == spec_mock_regression(mean_bits),
        b == spec_mock_regression(mean_bits),
    ensures
        a == b,
{
}

} // verus!
