//! The tagged union of `TxExecutionError`: the top split of the error
//! taxonomy.

use vstd::prelude::*;

verus! {

/// Exactly one alternative is populated; action_error = 1,
/// invalid_tx_error = 2. The second carries the numeric tag of an
/// `InvalidTxError` reason.
#[derive(Clone, Debug, PartialEq)]
pub enum Error {
    ActionError(crate::pb::ActionError),
    InvalidTxError(i32),
}

} // verus!
