//! The tagged union of `ExecutionStatus`: the outcome statuses.

use vstd::prelude::*;

verus! {

/// Exactly one alternative is populated; unknown = 1, failure = 2,
/// success_value = 3, success_receipt_id = 4.
#[derive(Clone, Debug, PartialEq)]
pub enum Status {
    Unknown(crate::pb::UnknownExecutionStatus),
    Failure(crate::pb::FailureExecutionStatus),
    SuccessValue(crate::pb::SuccessValueExecutionStatus),
    SuccessReceiptId(crate::pb::SuccessReceiptIdExecutionStatus),
}

} // verus!
