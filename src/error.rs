use vstd::prelude::*;

verus! {

/// Why an operation was refused.
#[derive(Clone, Copy, Debug, PartialEq, Eq, Structural)]
pub enum ServiceError {
    /// No record has the requested id.
    NotFound,
    /// A patch came without the record to merge.
    InvalidArgument,
}

impl ServiceError {
    /// The status name that the remote interface reports.
    pub fn status(&self) -> (r: &'static str)
        ensures
            *self == ServiceError::NotFound ==> r@ == "not found"@,
            *self == ServiceError::InvalidArgument ==> r@ == "invalid argument"@,
    {
        match self {
            ServiceError::NotFound => "not found",
            ServiceError::InvalidArgument => "invalid argument",
        }
    }
}

} // verus!
