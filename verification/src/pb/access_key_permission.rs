//! The tagged union of `AccessKeyPermission`.

use vstd::prelude::*;

verus! {

/// Exactly one alternative is populated; function_call = 1,
/// full_access = 2.
#[derive(Clone, Debug, PartialEq)]
pub enum Permission {
    FunctionCall(crate::pb::FunctionCallPermission),
    FullAccess(crate::pb::FullAccessPermission),
}

} // verus!
