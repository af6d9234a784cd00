//! Errors of the job registry contract, as other contracts see them.
use vstd::prelude::*;

verus! {

/// The job registry's errors; `code` gives each one's number.
#[derive(Clone, Copy, Debug, PartialEq, Eq, Structural)]
pub enum JobRegistryErrorCode {
    JobNotFound,
    JobNotOpen,
    Unauthorized,
    InvalidInput,
    InvalidState,
    BidNotFound,
}

impl JobRegistryErrorCode {
    /// The number under which the error leaves the registry.
    pub fn code(&self) -> (c: u32)
        ensures
            c == self.code_spec(),
    {
        match self {
            JobRegistryErrorCode::JobNotFound => 1,
            JobRegistryErrorCode::JobNotOpen => 2,
            JobRegistryErrorCode::Unauthorized => 3,
            JobRegistryErrorCode::InvalidInput => 4,
            JobRegistryErrorCode::InvalidState => 5,
            JobRegistryErrorCode::BidNotFound => 6,
        }
    }

    /// The number of each error.
    pub open spec fn code_spec(self) -> u32 {
        match self {
            JobRegistryErrorCode::JobNotFound => 1u32,
            JobRegistryErrorCode::JobNotOpen => 2,
            JobRegistryErrorCode::Unauthorized => 3,
            JobRegistryErrorCode::InvalidInput => 4,
            JobRegistryErrorCode::InvalidState => 5,
            JobRegistryErrorCode::BidNotFound => 6,
        }
    }
}

} // verus!
