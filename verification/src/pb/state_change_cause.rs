//! The tagged union of `StateChangeCause`. Schema-only: this layer never
//! fills state changes.

use vstd::prelude::*;

verus! {

/// Exactly one alternative is populated; numbers 1..=10 in order.
#[derive(Clone, Debug, PartialEq)]
pub enum Cause {
    NotWritableToDisk(crate::pb::NotWritableToDisk),
    InitialState(crate::pb::InitialState),
    TransactionProcessing(crate::pb::TransactionProcessing),
    ActionReceiptProcessingStarted(crate::pb::ActionReceiptProcessingStarted),
    ActionReceiptGasReward(crate::pb::ActionReceiptGasReward),
    ReceiptProcessing(crate::pb::ReceiptProcessing),
    PostponedReceipt(crate::pb::PostponedReceipt),
    UpdatedDelayedReceipts(crate::pb::UpdatedDelayedReceipts),
    ValidatorAccountsUpdate(crate::pb::ValidatorAccountsUpdate),
    Migration(crate::pb::Migration),
}

} // verus!
