//! The tagged union of `StateChangeValue`. Schema-only: this layer never
//! fills state changes.

use vstd::prelude::*;

verus! {

/// Exactly one alternative is populated; numbers 1..=8 in order.
#[derive(Clone, Debug, PartialEq)]
pub enum Value {
    AccountUpdate(crate::pb::AccountUpdate),
    AccountDeletion(crate::pb::AccountDeletion),
    AccessKeyUpdate(crate::pb::AccessKeyUpdate),
    AccessKeyDeletion(crate::pb::AccessKeyDeletion),
    DataUpdate(crate::pb::DataUpdate),
    DataDeletion(crate::pb::DataDeletion),
    ContractCodeUpdate(crate::pb::ContractCodeUpdate),
    ContractDeletion(crate::pb::ContractCodeDeletion),
}

} // verus!
