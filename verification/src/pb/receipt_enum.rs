//! The tagged union of `ReceiptEnum`: the two receipt bodies.

use vstd::prelude::*;

verus! {

/// Exactly one alternative is populated; action = 1, data = 2.
#[derive(Clone, Debug, PartialEq)]
pub enum Receipt {
    Action(crate::pb::ReceiptAction),
    Data(crate::pb::ReceiptData),
}

} // verus!
