use vstd::prelude::*;

verus! {

/// An error that occurred while sampling a system under test's input space.
#[derive(Clone, Debug, PartialEq)]
pub enum SamplingError {
    /// Adherence exhausted its rotation budget without crossing the boundary.
    BoundaryLost,
    /// The classifier was queried at a point outside of its domain.
    OutOfBounds,
    /// A search used its full sample budget without converging.
    MaxSamplesExceeded,
    /// The remote classifier answered with something the protocol does not allow.
    InvalidClassifierResponse(String),
}

impl SamplingError {
    /// A description of the error for people.
    pub fn message(&self) -> (r: String)
        ensures
            *self == SamplingError::BoundaryLost ==> r@ == "Boundary lost during adherence."@,
            *self == SamplingError::OutOfBounds ==> r@ == "Boundary was sampled out of domain bounds."@,
            *self == SamplingError::MaxSamplesExceeded ==> r@ == "Exceeded max samples."@,
            self matches SamplingError::InvalidClassifierResponse(msg) ==> r@ == msg@,
    {
        match self {
            SamplingError::BoundaryLost => "Boundary lost during adherence.".to_owned(),
            SamplingError::OutOfBounds => "Boundary was sampled out of domain bounds.".to_owned(),
            SamplingError::MaxSamplesExceeded => "Exceeded max samples.".to_owned(),
            SamplingError::InvalidClassifierResponse(msg) => msg.clone(),
        }
    }
}

/// The result of sampling a function under test.
pub type Result<T> = core::result::Result<T, SamplingError>;

} // verus!
