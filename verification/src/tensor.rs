//! Rank-2 numeric tensors, as the execution engine exchanges them: a batch of
//! rows of single-precision scalars, carried here as bit patterns in row-major
//! order.

use vstd::prelude::*;
use vstd::string::*;

use crate::errors::InferenceError;
use crate::errors::InferenceStage;
use crate::features::FeatureVector;

verus! {

/// A rank-2 tensor of single-precision scalars (as bit patterns), row-major.
/// The shape always agrees with the data: `data.len() == rows * cols`.
pub struct Tensor2 {
    rows: usize,
    cols: usize,
    data: Vec<u32>,
}

impl View for Tensor2 {
    type V = Seq<u32>;

    closed spec fn view(&self) -> Seq<u32> {
        self.data@
    }
}

impl Tensor2 {
    #[verifier::type_invariant]
    closed spec fn wf(self) -> bool {
        self.data@.len() == self.rows * self.cols
    }

    pub closed spec fn spec_rows(self) -> usize {
        self.rows
    }

    pub closed spec fn spec_cols(self) -> usize {
        self.cols
    }

    /// Builds a tensor of the given shape, failing exactly when the data does
    /// not fill it.
    pub fn new(rows: usize, cols: usize, data: Vec<u32>) -> (r: Option<Tensor2>)
        ensures
            match r {
                Some(t) => {
                    &&& data@.len() == rows * cols
                    &&& t.spec_rows() == rows
                    &&& t.spec_cols() == cols
                    &&& t@ == data@
                },
                None => data@.len() != rows * cols,
            },
    {
        let len = data.len();
        match rows.checked_mul(cols) {
            Some(product) => {
                if product == len {
                    Some(Tensor2 { rows, cols, data })
                } else {
                    None
                }
            },
            None => None,
        }
    }

    pub fn rows(&self) -> (n: usize)
        ensures
            n == self.spec_rows(),
    {
        self.rows
    }

    pub fn cols(&self) -> (n: usize)
        ensures
            n == self.spec_cols(),
    {
        self.cols
    }

    /// The scalars in row-major order.
    pub fn data(&self) -> (d: &Vec<u32>)
        ensures
            d@ == self@,
    {
        &self.data
    }

    /// The scalar at index 0 of the first batch row — the single value a
    /// regression output carries. Fails, as an output-extraction fault, exactly
    /// when the tensor is empty.
    pub fn first_scalar(&self) -> (r: Result<u32, InferenceError>)
        ensures
            match r {
                Ok(b) => self.spec_rows() >= 1 && self.spec_cols() >= 1 && b == self@[0],
                Err(e) => {
                    &&& (self.spec_rows() == 0 || self.spec_cols() == 0)
                    &&& e.stage == InferenceStage::OutputExtraction
                    &&& e.detail@ == "output tensor is empty"@
                },
            },
    {
        proof {
            use_type_invariant(self);
        }
        if self.rows >= 1 && self.cols >= 1 {
            assert(self.data@.len() >= 1) by (nonlinear_arith)
                requires
                    self.data@.len() == self.rows * self.cols,
                    self.rows >= 1,
                    self.cols >= 1,
            ;
            Ok(self.data[0])
        } else {
            Err(InferenceError {
                stage: InferenceStage::OutputExtraction,
                detail: String::from_str("output tensor is empty"),
            })
        }
    }
}

/// The model input the real backend sends: a rank-2 tensor of shape
/// `(1, n)` holding the validated feature vector as its single batch row.
pub fn input_tensor(fv: &FeatureVector) -> (t: Tensor2)
    ensures
        t.spec_rows() == 1,
        t.spec_cols() == fv@.len(),
        t@ == fv@,
{
    let data = fv.bits().clone();
    Tensor2 { rows: 1, cols: data.len(), data }
}

} // verus!
