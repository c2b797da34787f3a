//! The error taxonomy mapper: the exhaustive projection of the domain's
//! nested transaction/action/receipt-validation error tree onto the
//! closed wire variant set. The mapping is total — every domain variant
//! has exactly one wire destination — and written without a wildcard arm,
//! so a new domain variant cannot fall through silently.

use vstd::prelude::*;
use crate::domain::DomainActionError;
use crate::domain::DomainActionErrorKind;
use crate::domain::DomainFunctionCallError;
use crate::domain::DomainInvalidTxError;
use crate::domain::DomainReceiptValidationError;
use crate::domain::DomainTxError;
use crate::pb;
use crate::project::rel_big;
use crate::project::rel_public_key;
use crate::project::project_big;
use crate::project::project_public_key;
use crate::util::copy_bytes;

verus! {

/// The wire failure class of a domain function-call failure class.
pub open spec fn spec_map_function_call_error(e: DomainFunctionCallError)
    -> pb::FunctionCallErrorSer {
    match e {
        DomainFunctionCallError::CompilationError => pb::FunctionCallErrorSer::CompilationError,
        DomainFunctionCallError::LinkError => pb::FunctionCallErrorSer::LinkError,
        DomainFunctionCallError::MethodResolveError => pb::FunctionCallErrorSer::MethodResolveError,
        DomainFunctionCallError::WasmTrap => pb::FunctionCallErrorSer::WasmTrap,
        DomainFunctionCallError::WasmUnknownError => pb::FunctionCallErrorSer::WasmUnknownError,
        DomainFunctionCallError::HostError => pb::FunctionCallErrorSer::HostError,
        DomainFunctionCallError::EvmError => pb::FunctionCallErrorSer::EvmError,
        DomainFunctionCallError::ExecutionError => pb::FunctionCallErrorSer::ExecutionError,
    }
}

/// The wire failure class of a domain function-call failure class.
pub fn map_function_call_error(e: DomainFunctionCallError) -> (r: pb::FunctionCallErrorSer)
    ensures
        r == spec_map_function_call_error(e),
{
    match e {
        DomainFunctionCallError::CompilationError => pb::FunctionCallErrorSer::CompilationError,
        DomainFunctionCallError::LinkError => pb::FunctionCallErrorSer::LinkError,
        DomainFunctionCallError::MethodResolveError => pb::FunctionCallErrorSer::MethodResolveError,
        DomainFunctionCallError::WasmTrap => pb::FunctionCallErrorSer::WasmTrap,
        DomainFunctionCallError::WasmUnknownError => pb::FunctionCallErrorSer::WasmUnknownError,
        DomainFunctionCallError::HostError => pb::FunctionCallErrorSer::HostError,
        DomainFunctionCallError::EvmError => pb::FunctionCallErrorSer::EvmError,
        DomainFunctionCallError::ExecutionError => pb::FunctionCallErrorSer::ExecutionError,
    }
}

/// The wire failure class of a domain receipt-validation failure class.
pub open spec fn spec_map_receipt_validation_error(e: DomainReceiptValidationError)
    -> pb::ReceiptValidationError {
    match e {
        DomainReceiptValidationError::InvalidPredecessorId
            => pb::ReceiptValidationError::InvalidPredecessorId,
        DomainReceiptValidationError::InvalidReceiverId
            => pb::ReceiptValidationError::InvalidReceiverAccountId,
        DomainReceiptValidationError::InvalidSignerId
            => pb::ReceiptValidationError::InvalidSignerAccountId,
        DomainReceiptValidationError::InvalidDataReceiverId
            => pb::ReceiptValidationError::InvalidDataReceiverId,
        DomainReceiptValidationError::ReturnedValueLengthExceeded
            => pb::ReceiptValidationError::ReturnedValueLengthExceeded,
        DomainReceiptValidationError::NumberInputDataDependenciesExceeded
            => pb::ReceiptValidationError::NumberInputDataDependenciesExceeded,
        DomainReceiptValidationError::ActionsValidation
            => pb::ReceiptValidationError::ActionsValidationError,
    }
}

/// The wire failure class of a domain receipt-validation failure class.
pub fn map_receipt_validation_error(e: DomainReceiptValidationError) -> (r:
    pb::ReceiptValidationError)
    ensures
        r == spec_map_receipt_validation_error(e),
{
    match e {
        DomainReceiptValidationError::InvalidPredecessorId
            => pb::ReceiptValidationError::InvalidPredecessorId,
        DomainReceiptValidationError::InvalidReceiverId
            => pb::ReceiptValidationError::InvalidReceiverAccountId,
        DomainReceiptValidationError::InvalidSignerId
            => pb::ReceiptValidationError::InvalidSignerAccountId,
        DomainReceiptValidationError::InvalidDataReceiverId
            => pb::ReceiptValidationError::InvalidDataReceiverId,
        DomainReceiptValidationError::ReturnedValueLengthExceeded
            => pb::ReceiptValidationError::ReturnedValueLengthExceeded,
        DomainReceiptValidationError::NumberInputDataDependenciesExceeded
            => pb::ReceiptValidationError::NumberInputDataDependenciesExceeded,
        DomainReceiptValidationError::ActionsValidation
            => pb::ReceiptValidationError::ActionsValidationError,
    }
}

/// The wire reason of a domain transaction validation failure reason.
pub open spec fn spec_map_invalid_tx_error(e: DomainInvalidTxError) -> pb::InvalidTxError {
    match e {
        DomainInvalidTxError::InvalidAccessKeyError => pb::InvalidTxError::InvalidAccessKeyError,
        DomainInvalidTxError::InvalidSignerId => pb::InvalidTxError::InvalidSignerId,
        DomainInvalidTxError::SignerDoesNotExist => pb::InvalidTxError::SignerDoesNotExist,
        DomainInvalidTxError::InvalidNonce => pb::InvalidTxError::InvalidNonce,
        DomainInvalidTxError::NonceTooLarge => pb::InvalidTxError::NonceTooLarge,
        DomainInvalidTxError::InvalidReceiverId => pb::InvalidTxError::InvalidReceiverId,
        DomainInvalidTxError::InvalidSignature => pb::InvalidTxError::InvalidSignature,
        DomainInvalidTxError::NotEnoughBalance => pb::InvalidTxError::NotEnoughBalance,
        DomainInvalidTxError::LackBalanceForState => pb::InvalidTxError::LackBalanceForState,
        DomainInvalidTxError::CostOverflow => pb::InvalidTxError::CostOverflow,
        DomainInvalidTxError::InvalidChain => pb::InvalidTxError::InvalidChain,
        DomainInvalidTxError::Expired => pb::InvalidTxError::Expired,
        DomainInvalidTxError::ActionsValidation => pb::InvalidTxError::ActionsValidation,
        DomainInvalidTxError::TransactionSizeExceeded
            => pb::InvalidTxError::TransactionSizeExceeded,
    }
}

/// The wire reason of a domain transaction validation failure reason.
pub fn map_invalid_tx_error(e: DomainInvalidTxError) -> (r: pb::InvalidTxError)
    ensures
        r == spec_map_invalid_tx_error(e),
{
    match e {
        DomainInvalidTxError::InvalidAccessKeyError => pb::InvalidTxError::InvalidAccessKeyError,
        DomainInvalidTxError::InvalidSignerId => pb::InvalidTxError::InvalidSignerId,
        DomainInvalidTxError::SignerDoesNotExist => pb::InvalidTxError::SignerDoesNotExist,
        DomainInvalidTxError::InvalidNonce => pb::InvalidTxError::InvalidNonce,
        DomainInvalidTxError::NonceTooLarge => pb::InvalidTxError::NonceTooLarge,
        DomainInvalidTxError::InvalidReceiverId => pb::InvalidTxError::InvalidReceiverId,
        DomainInvalidTxError::InvalidSignature => pb::InvalidTxError::InvalidSignature,
        DomainInvalidTxError::NotEnoughBalance => pb::InvalidTxError::NotEnoughBalance,
        DomainInvalidTxError::LackBalanceForState => pb::InvalidTxError::LackBalanceForState,
        DomainInvalidTxError::CostOverflow => pb::InvalidTxError::CostOverflow,
        DomainInvalidTxError::InvalidChain => pb::InvalidTxError::InvalidChain,
        DomainInvalidTxError::Expired => pb::InvalidTxError::Expired,
        DomainInvalidTxError::ActionsValidation => pb::InvalidTxError::ActionsValidation,
        DomainInvalidTxError::TransactionSizeExceeded
            => pb::InvalidTxError::TransactionSizeExceeded,
    }
}

/// The wire kind a domain action error kind maps to: exactly the
/// corresponding alternative, with its payload carried over field by
/// field. The function-call and receipt-validation payloads collapse to
/// their closed numeric failure class; the class detail is intentionally
/// omitted (a documented lossy simplification).
pub open spec fn rel_action_error_kind(
    d: DomainActionErrorKind,
    w: pb::ActionErrorKind,
) -> bool {
    match d {
        DomainActionErrorKind::AccountAlreadyExists { account_id } => w.kind matches Some(
            pb::action_error_kind::Kind::AccountAlreadyExist(p),
        ) && p.account_id@ == account_id@,
        DomainActionErrorKind::AccountDoesNotExist { account_id } => w.kind matches Some(
            pb::action_error_kind::Kind::AccountDoesNotExist(p),
        ) && p.account_id@ == account_id@,
        DomainActionErrorKind::CreateAccountOnlyByRegistrar {
            account_id,
            registrar_account_id,
            predecessor_id,
        } => w.kind matches Some(pb::action_error_kind::Kind::CreateAccountOnlyByRegistrar(p))
            && p.account_id@ == account_id@ && p.registrar_account_id@ == registrar_account_id@
            && p.predecessor_id@ == predecessor_id@,
        DomainActionErrorKind::CreateAccountNotAllowed { account_id, predecessor_id } => w.kind
            matches Some(pb::action_error_kind::Kind::CreateAccountNotAllowed(p))
            && p.account_id@ == account_id@ && p.predecessor_id@ == predecessor_id@,
        DomainActionErrorKind::ActorNoPermission { account_id, actor_id } => w.kind matches Some(
            pb::action_error_kind::Kind::ActorNoPermission(p),
        ) && p.account_id@ == account_id@ && p.actor_id@ == actor_id@,
        DomainActionErrorKind::DeleteKeyDoesNotExist { account_id, public_key } => w.kind
            matches Some(pb::action_error_kind::Kind::DeleteKeyDoesNotExist(p))
            && p.account_id@ == account_id@ && rel_public_key(public_key, p.public_key),
        DomainActionErrorKind::AddKeyAlreadyExists { account_id, public_key } => w.kind
            matches Some(pb::action_error_kind::Kind::AddKeyAlreadyExists(p))
            && p.account_id@ == account_id@ && rel_public_key(public_key, p.public_key),
        DomainActionErrorKind::DeleteAccountStaking { account_id } => w.kind matches Some(
            pb::action_error_kind::Kind::DeleteAccountStaking(p),
        ) && p.account_id@ == account_id@,
        DomainActionErrorKind::LackBalanceForState { account_id, amount } => w.kind matches Some(
            pb::action_error_kind::Kind::LackBalanceForState(p),
        ) && p.account_id@ == account_id@ && rel_big(amount, p.balance),
        DomainActionErrorKind::TriesToUnstake { account_id } => w.kind matches Some(
            pb::action_error_kind::Kind::TriesToUnstake(p),
        ) && p.account_id@ == account_id@,
        DomainActionErrorKind::TriesToStake { account_id, stake, locked, balance } => w.kind
            matches Some(pb::action_error_kind::Kind::TriesToStake(p))
            && p.account_id@ == account_id@ && rel_big(stake, p.stake)
            && rel_big(locked, p.locked) && rel_big(balance, p.balance),
        DomainActionErrorKind::InsufficientStake { account_id, stake, minimum_stake } => w.kind
            matches Some(pb::action_error_kind::Kind::InsufficientStake(p))
            && p.account_id@ == account_id@ && rel_big(stake, p.stake)
            && rel_big(minimum_stake, p.minimum_stake),
        DomainActionErrorKind::FunctionCallError(e) => w.kind matches Some(
            pb::action_error_kind::Kind::FunctionCall(p),
        ) && p.error == pb::spec_function_call_error_tag(spec_map_function_call_error(e)),
        DomainActionErrorKind::NewReceiptValidationError(e) => w.kind matches Some(
            pb::action_error_kind::Kind::NewReceiptValidation(p),
        ) && p.error == pb::spec_receipt_validation_error_tag(
            spec_map_receipt_validation_error(e),
        ),
        DomainActionErrorKind::OnlyImplicitAccountCreationAllowed { account_id } => w.kind
            matches Some(pb::action_error_kind::Kind::OnlyImplicitAccountCreationAllowed(p))
            && p.account_id@ == account_id@,
        DomainActionErrorKind::DeleteAccountWithLargeState { account_id } => w.kind matches Some(
            pb::action_error_kind::Kind::DeleteAccountWithLargeState(p),
        ) && p.account_id@ == account_id@,
        DomainActionErrorKind::DelegateActionInvalidSignature => w.kind matches Some(
            pb::action_error_kind::Kind::DelegateActionInvalidSignature(_p),
        ),
        DomainActionErrorKind::DelegateActionSenderDoesNotMatchTxReceiver {
            sender_id,
            receiver_id,
        } => w.kind matches Some(
            pb::action_error_kind::Kind::DelegateActionSenderDoesNotMatchTxReceiver(p),
        ) && p.sender_id@ == sender_id@ && p.receiver_id@ == receiver_id@,
        DomainActionErrorKind::DelegateActionExpired => w.kind matches Some(
            pb::action_error_kind::Kind::DelegateActionExpired(_p),
        ),
        DomainActionErrorKind::DelegateActionAccessKeyError => w.kind matches Some(
            pb::action_error_kind::Kind::DelegateActionAccessKeyError(_p),
        ),
        DomainActionErrorKind::DelegateActionInvalidNonce { delegate_nonce, ak_nonce } => w.kind
            matches Some(pb::action_error_kind::Kind::DelegateActionInvalidNonce(p))
            && p.delegate_nonce == delegate_nonce && p.ak_nonce == ak_nonce,
        DomainActionErrorKind::DelegateActionNonceTooLarge { delegate_nonce, upper_bound } => w.kind
            matches Some(pb::action_error_kind::Kind::DelegateActionNonceTooLarge(p))
            && p.delegate_nonce == delegate_nonce && p.upper_bound == upper_bound,
    }
}

/// The wire form of a domain action error: the reported index, or zero
/// where the node reported none, and the mapped kind.
pub open spec fn rel_action_error(d: DomainActionError, w: pb::ActionError) -> bool {
    &&& w.index == (match d.index {
        Some(i) => i,
        None => 0u64,
    })
    &&& w.kind matches Some(k) && rel_action_error_kind(d.kind, k)
}

/// The wire form of a domain transaction execution error: an action error
/// maps to the action-error alternative, a validation failure to the
/// numeric invalid-transaction alternative.
pub open spec fn rel_tx_error(d: DomainTxError, w: pb::TxExecutionError) -> bool {
    match d {
        DomainTxError::ActionError(ae) => w.error matches Some(
            pb::tx_execution_error::Error::ActionError(wa),
        ) && rel_action_error(ae, wa),
        DomainTxError::InvalidTxError(e) => w.error matches Some(
            pb::tx_execution_error::Error::InvalidTxError(t),
        ) && t == pb::spec_invalid_tx_error_tag(spec_map_invalid_tx_error(e)),
    }
}

/// Map one domain action error kind to its wire kind.
pub fn map_action_error_kind(d: &DomainActionErrorKind) -> (r: pb::ActionErrorKind)
    ensures
        rel_action_error_kind(*d, r),
{
    let kind = match d {
        DomainActionErrorKind::AccountAlreadyExists { account_id } =>
            pb::action_error_kind::Kind::AccountAlreadyExist(
                pb::AccountAlreadyExistsErrorKind { account_id: copy_bytes(account_id) },
            ),
        DomainActionErrorKind::AccountDoesNotExist { account_id } =>
            pb::action_error_kind::Kind::AccountDoesNotExist(
                pb::AccountDoesNotExistErrorKind { account_id: copy_bytes(account_id) },
            ),
        DomainActionErrorKind::CreateAccountOnlyByRegistrar {
            account_id,
            registrar_account_id,
            predecessor_id,
        } => pb::action_error_kind::Kind::CreateAccountOnlyByRegistrar(
            pb::CreateAccountOnlyByRegistrarErrorKind {
                account_id: copy_bytes(account_id),
                registrar_account_id: copy_bytes(registrar_account_id),
                predecessor_id: copy_bytes(predecessor_id),
            },
        ),
        DomainActionErrorKind::CreateAccountNotAllowed { account_id, predecessor_id } =>
            pb::action_error_kind::Kind::CreateAccountNotAllowed(
                pb::CreateAccountNotAllowedErrorKind {
                    account_id: copy_bytes(account_id),
                    predecessor_id: copy_bytes(predecessor_id),
                },
            ),
        DomainActionErrorKind::ActorNoPermission { account_id, actor_id } =>
            pb::action_error_kind::Kind::ActorNoPermission(
                pb::ActorNoPermissionErrorKind {
                    account_id: copy_bytes(account_id),
                    actor_id: copy_bytes(actor_id),
                },
            ),
        DomainActionErrorKind::DeleteKeyDoesNotExist { account_id, public_key } =>
            pb::action_error_kind::Kind::DeleteKeyDoesNotExist(
                pb::DeleteKeyDoesNotExistErrorKind {
                    account_id: copy_bytes(account_id),
                    public_key: Some(project_public_key(public_key)),
                },
            ),
        DomainActionErrorKind::AddKeyAlreadyExists { account_id, public_key } =>
            pb::action_error_kind::Kind::AddKeyAlreadyExists(
                pb::AddKeyAlreadyExistsErrorKind {
                    account_id: copy_bytes(account_id),
                    public_key: Some(project_public_key(public_key)),
                },
            ),
        DomainActionErrorKind::DeleteAccountStaking { account_id } =>
            pb::action_error_kind::Kind::DeleteAccountStaking(
                pb::DeleteAccountStakingErrorKind { account_id: copy_bytes(account_id) },
            ),
        DomainActionErrorKind::LackBalanceForState { account_id, amount } =>
            pb::action_error_kind::Kind::LackBalanceForState(
                pb::LackBalanceForStateErrorKind {
                    account_id: copy_bytes(account_id),
                    balance: Some(project_big(*amount)),
                },
            ),
        DomainActionErrorKind::TriesToUnstake { account_id } =>
            pb::action_error_kind::Kind::TriesToUnstake(
                pb::TriesToUnstakeErrorKind { account_id: copy_bytes(account_id) },
            ),
        DomainActionErrorKind::TriesToStake { account_id, stake, locked, balance } =>
            pb::action_error_kind::Kind::TriesToStake(
                pb::TriesToStakeErrorKind {
                    account_id: copy_bytes(account_id),
                    stake: Some(project_big(*stake)),
                    locked: Some(project_big(*locked)),
                    balance: Some(project_big(*balance)),
                },
            ),
        DomainActionErrorKind::InsufficientStake { account_id, stake, minimum_stake } =>
            pb::action_error_kind::Kind::InsufficientStake(
                pb::InsufficientStakeErrorKind {
                    account_id: copy_bytes(account_id),
                    stake: Some(project_big(*stake)),
                    minimum_stake: Some(project_big(*minimum_stake)),
                },
            ),
        DomainActionErrorKind::FunctionCallError(e) =>
            pb::action_error_kind::Kind::FunctionCall(
                pb::FunctionCallErrorKind {
                    error: pb::function_call_error_tag(map_function_call_error(*e)),
                },
            ),
        DomainActionErrorKind::NewReceiptValidationError(e) =>
            pb::action_error_kind::Kind::NewReceiptValidation(
                pb::NewReceiptValidationErrorKind {
                    error: pb::receipt_validation_error_tag(map_receipt_validation_error(*e)),
                },
            ),
        DomainActionErrorKind::OnlyImplicitAccountCreationAllowed { account_id } =>
            pb::action_error_kind::Kind::OnlyImplicitAccountCreationAllowed(
                pb::OnlyImplicitAccountCreationAllowedErrorKind {
                    account_id: copy_bytes(account_id),
                },
            ),
        DomainActionErrorKind::DeleteAccountWithLargeState { account_id } =>
            pb::action_error_kind::Kind::DeleteAccountWithLargeState(
                pb::DeleteAccountWithLargeStateErrorKind { account_id: copy_bytes(account_id) },
            ),
        DomainActionErrorKind::DelegateActionInvalidSignature =>
            pb::action_error_kind::Kind::DelegateActionInvalidSignature(
                pb::DelegateActionInvalidSignatureKind {},
            ),
        DomainActionErrorKind::DelegateActionSenderDoesNotMatchTxReceiver {
            sender_id,
            receiver_id,
        } => pb::action_error_kind::Kind::DelegateActionSenderDoesNotMatchTxReceiver(
            pb::DelegateActionSenderDoesNotMatchTxReceiverKind {
                sender_id: copy_bytes(sender_id),
                receiver_id: copy_bytes(receiver_id),
            },
        ),
        DomainActionErrorKind::DelegateActionExpired =>
            pb::action_error_kind::Kind::DelegateActionExpired(
                pb::DelegateActionExpiredKind {},
            ),
        DomainActionErrorKind::DelegateActionAccessKeyError =>
            pb::action_error_kind::Kind::DelegateActionAccessKeyError(
                pb::DelegateActionAccessKeyErrorKind {},
            ),
        DomainActionErrorKind::DelegateActionInvalidNonce { delegate_nonce, ak_nonce } =>
            pb::action_error_kind::Kind::DelegateActionInvalidNonce(
                pb::DelegateActionInvalidNonceKind {
                    delegate_nonce: *delegate_nonce,
                    ak_nonce: *ak_nonce,
                },
            ),
        DomainActionErrorKind::DelegateActionNonceTooLarge { delegate_nonce, upper_bound } =>
            pb::action_error_kind::Kind::DelegateActionNonceTooLarge(
                pb::DelegateActionNonceTooLargeKind {
                    delegate_nonce: *delegate_nonce,
                    upper_bound: *upper_bound,
                },
            ),
    };
    pb::ActionErrorKind { kind: Some(kind) }
}

/// Map one domain action error.
pub fn map_action_error(d: &DomainActionError) -> (r: pb::ActionError)
    ensures
        rel_action_error(*d, r),
{
    pb::ActionError {
        index: match d.index {
            Some(i) => i,
            None => 0,
        },
        kind: Some(map_action_error_kind(&d.kind)),
    }
}

/// The position of a wire action-error alternative in the closed variant
/// set, or zero where none is populated.
pub open spec fn wire_kind_tag(w: pb::ActionErrorKind) -> int {
    match w.kind {
        Option::None => 0,
        Option::Some(pb::action_error_kind::Kind::AccountAlreadyExist(_p)) => 1,
        Option::Some(pb::action_error_kind::Kind::AccountDoesNotExist(_p)) => 2,
        Option::Some(pb::action_error_kind::Kind::CreateAccountOnlyByRegistrar(_p)) => 3,
        Option::Some(pb::action_error_kind::Kind::CreateAccountNotAllowed(_p)) => 4,
        Option::Some(pb::action_error_kind::Kind::ActorNoPermission(_p)) => 5,
        Option::Some(pb::action_error_kind::Kind::DeleteKeyDoesNotExist(_p)) => 6,
        Option::Some(pb::action_error_kind::Kind::AddKeyAlreadyExists(_p)) => 7,
        Option::Some(pb::action_error_kind::Kind::DeleteAccountStaking(_p)) => 8,
        Option::Some(pb::action_error_kind::Kind::LackBalanceForState(_p)) => 9,
        Option::Some(pb::action_error_kind::Kind::TriesToUnstake(_p)) => 10,
        Option::Some(pb::action_error_kind::Kind::TriesToStake(_p)) => 11,
        Option::Some(pb::action_error_kind::Kind::InsufficientStake(_p)) => 12,
        Option::Some(pb::action_error_kind::Kind::FunctionCall(_p)) => 13,
        Option::Some(pb::action_error_kind::Kind::NewReceiptValidation(_p)) => 14,
        Option::Some(pb::action_error_kind::Kind::OnlyImplicitAccountCreationAllowed(_p)) => 15,
        Option::Some(pb::action_error_kind::Kind::DeleteAccountWithLargeState(_p)) => 16,
        Option::Some(pb::action_error_kind::Kind::DelegateActionInvalidSignature(_p)) => 17,
        Option::Some(
            pb::action_error_kind::Kind::DelegateActionSenderDoesNotMatchTxReceiver(_p),
        ) => 18,
        Option::Some(pb::action_error_kind::Kind::DelegateActionExpired(_p)) => 19,
        Option::Some(pb::action_error_kind::Kind::DelegateActionAccessKeyError(_p)) => 20,
        Option::Some(pb::action_error_kind::Kind::DelegateActionInvalidNonce(_p)) => 21,
        Option::Some(pb::action_error_kind::Kind::DelegateActionNonceTooLarge(_p)) => 22,
    }
}

/// The position of a domain action error kind in the closed variant set.
pub open spec fn domain_kind_tag(d: DomainActionErrorKind) -> int {
    match d {
        DomainActionErrorKind::AccountAlreadyExists { .. } => 1,
        DomainActionErrorKind::AccountDoesNotExist { .. } => 2,
        DomainActionErrorKind::CreateAccountOnlyByRegistrar { .. } => 3,
        DomainActionErrorKind::CreateAccountNotAllowed { .. } => 4,
        DomainActionErrorKind::ActorNoPermission { .. } => 5,
        DomainActionErrorKind::DeleteKeyDoesNotExist { .. } => 6,
        DomainActionErrorKind::AddKeyAlreadyExists { .. } => 7,
        DomainActionErrorKind::DeleteAccountStaking { .. } => 8,
        DomainActionErrorKind::LackBalanceForState { .. } => 9,
        DomainActionErrorKind::TriesToUnstake { .. } => 10,
        DomainActionErrorKind::TriesToStake { .. } => 11,
        DomainActionErrorKind::InsufficientStake { .. } => 12,
        DomainActionErrorKind::FunctionCallError(_e) => 13,
        DomainActionErrorKind::NewReceiptValidationError(_e) => 14,
        DomainActionErrorKind::OnlyImplicitAccountCreationAllowed { .. } => 15,
        DomainActionErrorKind::DeleteAccountWithLargeState { .. } => 16,
        DomainActionErrorKind::DelegateActionInvalidSignature => 17,
        DomainActionErrorKind::DelegateActionSenderDoesNotMatchTxReceiver { .. } => 18,
        DomainActionErrorKind::DelegateActionExpired => 19,
        DomainActionErrorKind::DelegateActionAccessKeyError => 20,
        DomainActionErrorKind::DelegateActionInvalidNonce { .. } => 21,
        DomainActionErrorKind::DelegateActionNonceTooLarge { .. } => 22,
    }
}

/// The mapping of action error kinds is total and mutually exclusive:
/// every domain kind is sent to exactly one populated wire alternative —
/// the one at its own position in the closed variant set — so no two
/// distinct domain kinds share a wire destination.
pub proof fn lemma_action_error_mapping_exhaustive(
    d: DomainActionErrorKind,
    w: pb::ActionErrorKind,
)
    requires
        rel_action_error_kind(d, w),
    ensures
        w.kind is Some,
        wire_kind_tag(w) == domain_kind_tag(d),
{
}

/// The mapping of transaction validation failure reasons is injective:
/// two domain reasons with the same wire reason are the same reason.
pub proof fn lemma_invalid_tx_mapping_injective(a: DomainInvalidTxError, b: DomainInvalidTxError)
    requires
        spec_map_invalid_tx_error(a) == spec_map_invalid_tx_error(b),
    ensures
        a == b,
{
}

/// The collapse of function-call failure classes is injective.
pub proof fn lemma_function_call_mapping_injective(
    a: DomainFunctionCallError,
    b: DomainFunctionCallError,
)
    requires
        spec_map_function_call_error(a) == spec_map_function_call_error(b),
    ensures
        a == b,
{
}

/// The collapse of receipt-validation failure classes is injective.
pub proof fn lemma_receipt_validation_mapping_injective(
    a: DomainReceiptValidationError,
    b: DomainReceiptValidationError,
)
    requires
        spec_map_receipt_validation_error(a) == spec_map_receipt_validation_error(b),
    ensures
        a == b,
{
}

/// The top split of the taxonomy is total and mutually exclusive: an
/// action error populates exactly the action-error alternative, and a
/// validation failure exactly the numeric invalid-transaction
/// alternative; the output is never empty.
pub proof fn lemma_tx_error_mapping_exhaustive(d: DomainTxError, w: pb::TxExecutionError)
    requires
        rel_tx_error(d, w),
    ensures
        w.error is Some,
        (d is ActionError) == (w.error->Some_0 is ActionError),
        (d is InvalidTxError) == (w.error->Some_0 is InvalidTxError),
{
}

/// Map one domain transaction execution error to exactly one wire error.
pub fn map_tx_error(d: &DomainTxError) -> (r: pb::TxExecutionError)
    ensures
        rel_tx_error(*d, r),
{
    match d {
        DomainTxError::ActionError(ae) => pb::TxExecutionError {
            error: Some(pb::tx_execution_error::Error::ActionError(map_action_error(ae))),
        },
        DomainTxError::InvalidTxError(e) => pb::TxExecutionError {
            error: Some(
                pb::tx_execution_error::Error::InvalidTxError(
                    pb::invalid_tx_error_tag(map_invalid_tx_error(*e)),
                ),
            ),
        },
    }
}

} // verus!
