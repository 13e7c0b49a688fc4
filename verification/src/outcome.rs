//! Outcomes of plugin operations and the integer codes the host reads.

use vstd::prelude::*;
use vstd::std_specs::convert::FromSpecImpl;

verus! {

/// Code for an operation that failed for good.
pub const FLB_ERROR: u32 = 0;

/// Code for an operation that succeeded.
pub const FLB_OK: u32 = 1;

/// Code for an operation that the host may try again later.
pub const FLB_RETRY: u32 = 2;

/// How a plugin operation can fail.
#[allow(non_camel_case_types)]
#[derive(Debug, Clone, Copy, PartialEq, Eq, Structural)]
pub enum FLBError {
    /// The operation failed and the host drops the data.
    FLB_ERROR,
    /// The operation failed, but the host can hand the data over again later.
    FLB_RETRY,
}

/// Result of any plugin operation.
pub type FLBResult = Result<(), FLBError>;

impl From<FLBError> for i32 {
    /// The integer the host reads for a failure: 0 for one that is final, 2
    /// for one that may be tried again.
    fn from(error: FLBError) -> (code: i32) {
        match error {
            FLBError::FLB_ERROR => 0,
            FLBError::FLB_RETRY => 2,
        }
    }
}

impl FromSpecImpl<FLBError> for i32 {
    open spec fn obeys_from_spec() -> bool {
        true
    }

    open spec fn from_spec(error: FLBError) -> i32 {
        match error {
            FLBError::FLB_ERROR => 0i32,
            FLBError::FLB_RETRY => 2i32,
        }
    }
}

/// The integer the host reads for an outcome.
pub open spec fn outcome_code_spec(result: FLBResult) -> int {
    match result {
        Ok(()) => FLB_OK as int,
        Err(FLBError::FLB_ERROR) => FLB_ERROR as int,
        Err(FLBError::FLB_RETRY) => FLB_RETRY as int,
    }
}

/// Maps an outcome to the integer the host expects.
pub fn outcome_code(result: FLBResult) -> (code: i32)
    ensures
        code == outcome_code_spec(result),
{
    match result {
        Ok(()) => 1,
        Err(e) => i32::from(e),
    }
}

} // verus!
