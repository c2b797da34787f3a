//! The tagged union of `NonDelegateAction`: an action nested inside a
//! delegated batch. It repeats the first eight alternatives of
//! `action::Action` under the same numbers; delegation cannot nest.

use vstd::prelude::*;

verus! {

/// Exactly one alternative is populated; numbers 1..=8 in order.
#[derive(Clone, Debug, PartialEq)]
pub enum Action {
    CreateAccount(crate::pb::CreateAccountAction),
    DeployContract(crate::pb::DeployContractAction),
    FunctionCall(crate::pb::FunctionCallAction),
    Transfer(crate::pb::TransferAction),
    Stake(crate::pb::StakeAction),
    AddKey(crate::pb::AddKeyAction),
    DeleteKey(crate::pb::DeleteKeyAction),
    DeleteAccount(crate::pb::DeleteAccountAction),
}

} // verus!
