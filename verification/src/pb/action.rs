//! The tagged union of `Action`: the operations a transaction may request.

use vstd::prelude::*;

verus! {

/// Exactly one alternative is populated; numbers 1..=9 in order.
#[derive(Clone, Debug, PartialEq)]
pub enum Action {
    CreateAccount(crate::pb::CreateAccountAction),
    DeployContract(crate::pb::DeployContractAction),
    FunctionCall(crate::pb::FunctionCallAction),
    Transfer(crate::pb::TransferAction),
    Stake(crate::pb::StakeAction),
    AddKey(crate::pb::AddKeyAction),
    DeleteKey(crate::pb::DeleteKeyAction),
    DeleteAccount(crate::pb::DeleteAccountAction),
    Delegate(crate::pb::SignedDelegateAction),
}

} // verus!
