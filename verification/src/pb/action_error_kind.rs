//! The tagged union of `ActionErrorKind`: every action error kind the
//! taxonomy distinguishes.

use vstd::prelude::*;

verus! {

/// Exactly one alternative is populated; numbers 1..=22 in order.
#[derive(Clone, Debug, PartialEq)]
pub enum Kind {
    AccountAlreadyExist(crate::pb::AccountAlreadyExistsErrorKind),
    AccountDoesNotExist(crate::pb::AccountDoesNotExistErrorKind),
    CreateAccountOnlyByRegistrar(crate::pb::CreateAccountOnlyByRegistrarErrorKind),
    CreateAccountNotAllowed(crate::pb::CreateAccountNotAllowedErrorKind),
    ActorNoPermission(crate::pb::ActorNoPermissionErrorKind),
    DeleteKeyDoesNotExist(crate::pb::DeleteKeyDoesNotExistErrorKind),
    AddKeyAlreadyExists(crate::pb::AddKeyAlreadyExistsErrorKind),
    DeleteAccountStaking(crate::pb::DeleteAccountStakingErrorKind),
    LackBalanceForState(crate::pb::LackBalanceForStateErrorKind),
    TriesToUnstake(crate::pb::TriesToUnstakeErrorKind),
    TriesToStake(crate::pb::TriesToStakeErrorKind),
    InsufficientStake(crate::pb::InsufficientStakeErrorKind),
    FunctionCall(crate::pb::FunctionCallErrorKind),
    NewReceiptValidation(crate::pb::NewReceiptValidationErrorKind),
    OnlyImplicitAccountCreationAllowed(crate::pb::OnlyImplicitAccountCreationAllowedErrorKind),
    DeleteAccountWithLargeState(crate::pb::DeleteAccountWithLargeStateErrorKind),
    DelegateActionInvalidSignature(crate::pb::DelegateActionInvalidSignatureKind),
    DelegateActionSenderDoesNotMatchTxReceiver(
        crate::pb::DelegateActionSenderDoesNotMatchTxReceiverKind,
    ),
    DelegateActionExpired(crate::pb::DelegateActionExpiredKind),
    DelegateActionAccessKeyError(crate::pb::DelegateActionAccessKeyErrorKind),
    DelegateActionInvalidNonce(crate::pb::DelegateActionInvalidNonceKind),
    DelegateActionNonceTooLarge(crate::pb::DelegateActionNonceTooLargeKind),
}

} // verus!
