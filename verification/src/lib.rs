//! A stateless prediction-serving core: fixed-length feature vectors go in,
//! structured prediction results and service metadata come out.
//!
//! Scalar values travel through this crate as IEEE-754 single-precision bit
//! patterns (`u32`). The crate validates input shape, builds and reads rank-2
//! tensors, applies the mock backends' decision rules, and maps every failure
//! to a structured error response; the arithmetic that produces a scalar (a
//! floating-point sum or mean, a model's forward pass) happens outside and its
//! result is handed in as a bit pattern.

pub mod errors;
pub mod features;
pub mod mock;
pub mod response;
pub mod service;
pub mod tensor;
pub mod text;
pub mod variant;
