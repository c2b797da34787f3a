//! The wire schema: the stable, versioned message shapes this layer emits.
//!
//! Every message field has an explicit field number, written beside it;
//! field identity is the number, not the position or the name. Tagged
//! unions ("oneof" shapes) live in the submodules named after the message
//! that holds them; at most one alternative is ever present. String-valued
//! domain fields are carried as their UTF-8 bytes.
//!
//! The state-change message shapes at the end are schema-only: the
//! producer of this layer never fills them, so the emitted lists stay
//! empty; they are kept so that their field numbers are never reused.

pub mod access_key_permission;
pub mod action;
pub mod action_error_kind;
pub mod execution_status;
pub mod non_delegate_action;
pub mod receipt_enum;
pub mod state_change_cause;
pub mod state_change_value;
pub mod tx_execution_error;

use vstd::prelude::*;

verus! {

// ---- scalar value objects ----

/// An unsigned 128-bit magnitude as its 16-byte big-endian encoding.
/// Field: bytes = 1.
#[derive(Clone, Debug, PartialEq)]
pub struct BigInt {
    pub bytes: Vec<u8>,
}

/// A 32-byte hash carried as a raw byte blob. Field: bytes = 1.
#[derive(Clone, Debug, PartialEq)]
pub struct CryptoHash {
    pub bytes: Vec<u8>,
}

/// The closed set of curve kinds a signature or key may belong to.
#[derive(Clone, Copy, Debug, PartialEq, Eq, Structural)]
pub enum SignatureType {
    Ed25519,
    Secp256k1,
}

/// The numeric tag a curve kind is carried as on the wire.
pub open spec fn spec_signature_type_tag(t: SignatureType) -> i32 {
    match t {
        SignatureType::Ed25519 => 0,
        SignatureType::Secp256k1 => 1,
    }
}

/// The numeric tag a curve kind is carried as on the wire.
pub fn signature_type_tag(t: SignatureType) -> (r: i32)
    ensures
        r == spec_signature_type_tag(t),
{
    match t {
        SignatureType::Ed25519 => 0,
        SignatureType::Secp256k1 => 1,
    }
}

/// A curve-tagged signature blob. Fields: curve = 1, bytes = 2.
#[derive(Clone, Debug, PartialEq)]
pub struct Signature {
    pub curve: i32,
    pub bytes: Vec<u8>,
}

/// A curve-tagged public key blob. Fields: curve = 1, bytes = 2.
#[derive(Clone, Debug, PartialEq)]
pub struct PublicKey {
    pub curve: i32,
    pub bytes: Vec<u8>,
}

// ---- block and chunk shapes ----

/// A validator's stake proposal.
/// Fields: account_id = 1, public_key = 2, stake = 3.
#[derive(Clone, Debug, PartialEq)]
pub struct ValidatorStake {
    pub account_id: Vec<u8>,
    pub public_key: Option<PublicKey>,
    pub stake: Option<BigInt>,
}

/// A slashed validator in a challenge result.
/// Fields: account_id = 1, is_double_sign = 2.
#[derive(Clone, Debug, PartialEq)]
pub struct SlashedValidator {
    pub account_id: Vec<u8>,
    pub is_double_sign: bool,
}

/// The projected block header. Fields are numbered 1..=32 in declaration
/// order. `block_ordinal`, `last_final_block_height`,
/// `last_ds_final_block_height` and `epoch_sync_data_hash` are emitted as
/// zero-valued or empty placeholders pending newer source protocol
/// versions, not as semantic claims.
#[derive(Clone, Debug, PartialEq)]
pub struct BlockHeader {
    pub height: u64,
    pub prev_height: u64,
    pub epoch_id: Option<CryptoHash>,
    pub next_epoch_id: Option<CryptoHash>,
    pub hash: Option<CryptoHash>,
    pub prev_hash: Option<CryptoHash>,
    pub prev_state_root: Option<CryptoHash>,
    pub chunk_receipts_root: Option<CryptoHash>,
    pub chunk_headers_root: Option<CryptoHash>,
    pub chunk_tx_root: Option<CryptoHash>,
    pub outcome_root: Option<CryptoHash>,
    pub chunks_included: u64,
    pub challenges_root: Option<CryptoHash>,
    pub timestamp: u64,
    pub timestamp_nanosec: u64,
    pub random_value: Option<CryptoHash>,
    pub validator_proposals: Vec<ValidatorStake>,
    pub chunk_mask: Vec<bool>,
    pub gas_price: Option<BigInt>,
    pub block_ordinal: u64,
    pub total_supply: Option<BigInt>,
    pub challenges_result: Vec<SlashedValidator>,
    pub last_final_block_height: u64,
    pub last_final_block: Option<CryptoHash>,
    pub last_ds_final_block_height: u64,
    pub last_ds_final_block: Option<CryptoHash>,
    pub next_bp_hash: Option<CryptoHash>,
    pub block_merkle_root: Option<CryptoHash>,
    pub epoch_sync_data_hash: Vec<u8>,
    pub approvals: Vec<Signature>,
    pub signature: Option<Signature>,
    pub latest_protocol_version: u32,
}

/// A chunk header. Fields are numbered 1..=17 in declaration order.
#[derive(Clone, Debug, PartialEq)]
pub struct ChunkHeader {
    pub chunk_hash: Vec<u8>,
    pub prev_block_hash: Vec<u8>,
    pub outcome_root: Vec<u8>,
    pub prev_state_root: Vec<u8>,
    pub encoded_merkle_root: Vec<u8>,
    pub encoded_length: u64,
    pub height_created: u64,
    pub height_included: u64,
    pub shard_id: u64,
    pub gas_used: u64,
    pub gas_limit: u64,
    pub validator_reward: Option<BigInt>,
    pub balance_burnt: Option<BigInt>,
    pub outgoing_receipts_root: Vec<u8>,
    pub tx_root: Vec<u8>,
    pub validator_proposals: Vec<ValidatorStake>,
    pub signature: Option<Signature>,
}

/// The superseded root message of an earlier schema generation, kept so
/// that its field numbers are never reused; this layer no longer
/// produces it. Fields: block = 1, shards = 2, state_changes = 3.
#[derive(Clone, Debug, PartialEq)]
pub struct BlockWrapper {
    pub block: Option<Block>,
    pub shards: Vec<IndexerShard>,
    pub state_changes: Vec<StateChangeWithCause>,
}

/// The root wire message: one projected block.
/// Fields: author = 1, header = 2, chunk_headers = 3, shards = 4,
/// state_changes = 5.
#[derive(Clone, Debug, PartialEq)]
pub struct Block {
    pub author: Vec<u8>,
    pub header: Option<BlockHeader>,
    pub chunk_headers: Vec<ChunkHeader>,
    pub shards: Vec<IndexerShard>,
    pub state_changes: Vec<StateChangeWithCause>,
}

/// One shard's slice of a block.
/// Fields: shard_id = 1, chunk = 2, receipt_execution_outcomes = 3.
#[derive(Clone, Debug, PartialEq)]
pub struct IndexerShard {
    pub shard_id: u64,
    pub chunk: Option<IndexerChunk>,
    pub receipt_execution_outcomes: Vec<IndexerExecutionOutcomeWithReceipt>,
}

/// An execution outcome paired with the receipt it executed.
/// Fields: execution_outcome = 1, receipt = 2.
#[derive(Clone, Debug, PartialEq)]
pub struct IndexerExecutionOutcomeWithReceipt {
    pub execution_outcome: Option<ExecutionOutcomeWithIdView>,
    pub receipt: Option<Receipt>,
}

/// The chunk included in a shard at this height.
/// Fields: author = 1, header = 2, transactions = 3, receipts = 4.
#[derive(Clone, Debug, PartialEq)]
pub struct IndexerChunk {
    pub author: Vec<u8>,
    pub header: Option<ChunkHeader>,
    pub transactions: Vec<IndexerTransactionWithOutcome>,
    pub receipts: Vec<Receipt>,
}

/// A transaction with its conversion outcome.
/// Fields: transaction = 1, outcome = 2.
#[derive(Clone, Debug, PartialEq)]
pub struct IndexerTransactionWithOutcome {
    pub transaction: Option<SignedTransaction>,
    pub outcome: Option<IndexerExecutionOutcomeWithOptionalReceipt>,
}

/// A signed transaction. Fields: signer_id = 1, public_key = 2, nonce = 3,
/// receiver_id = 4, actions = 5, signature = 6, hash = 7.
#[derive(Clone, Debug, PartialEq)]
pub struct SignedTransaction {
    pub signer_id: Vec<u8>,
    pub public_key: Option<PublicKey>,
    pub nonce: u64,
    pub receiver_id: Vec<u8>,
    pub actions: Vec<Action>,
    pub signature: Option<Signature>,
    pub hash: Option<CryptoHash>,
}

/// An execution outcome with the receipt it belongs to, if any.
/// Fields: execution_outcome = 1, receipt = 2.
#[derive(Clone, Debug, PartialEq)]
pub struct IndexerExecutionOutcomeWithOptionalReceipt {
    pub execution_outcome: Option<ExecutionOutcomeWithIdView>,
    pub receipt: Option<Receipt>,
}

// ---- receipts ----

/// A receipt: one unit of deferred cross-account work.
/// Fields: predecessor_id = 1, receiver_id = 2, receipt_id = 3,
/// receipt = 4.
#[derive(Clone, Debug, PartialEq)]
pub struct Receipt {
    pub predecessor_id: Vec<u8>,
    pub receiver_id: Vec<u8>,
    pub receipt_id: Option<CryptoHash>,
    pub receipt: Option<ReceiptEnum>,
}

/// The tagged union over the two receipt bodies.
/// Alternatives: action = 1, data = 2.
#[derive(Clone, Debug, PartialEq)]
pub struct ReceiptEnum {
    pub receipt: Option<receipt_enum::Receipt>,
}

/// A data-delivery receipt body. Fields: data_id = 1, data = 2.
#[derive(Clone, Debug, PartialEq)]
pub struct ReceiptData {
    pub data_id: Option<CryptoHash>,
    pub data: Vec<u8>,
}

/// An action receipt body. Fields: signer_id = 1, signer_public_key = 2,
/// gas_price = 3, output_data_receivers = 4, input_data_ids = 5,
/// actions = 6.
#[derive(Clone, Debug, PartialEq)]
pub struct ReceiptAction {
    pub signer_id: Vec<u8>,
    pub signer_public_key: Option<PublicKey>,
    pub gas_price: Option<BigInt>,
    pub output_data_receivers: Vec<DataReceiver>,
    pub input_data_ids: Vec<CryptoHash>,
    pub actions: Vec<Action>,
}

/// A declared receiver of a receipt's output data.
/// Fields: data_id = 1, receiver_id = 2.
#[derive(Clone, Debug, PartialEq)]
pub struct DataReceiver {
    pub data_id: Option<CryptoHash>,
    pub receiver_id: Vec<u8>,
}

// ---- execution outcomes ----

/// An execution outcome with its identity and inclusion proof.
/// Fields: proof = 1, block_hash = 2, id = 3, outcome = 4.
#[derive(Clone, Debug, PartialEq)]
pub struct ExecutionOutcomeWithIdView {
    pub proof: Option<MerklePath>,
    pub block_hash: Option<CryptoHash>,
    pub id: Option<CryptoHash>,
    pub outcome: Option<ExecutionOutcome>,
}

/// The result of executing a transaction or receipt.
/// Fields: logs = 1, receipt_ids = 2, gas_burnt = 3, tokens_burnt = 4,
/// executor_id = 5, status = 6.
#[derive(Clone, Debug, PartialEq)]
pub struct ExecutionOutcome {
    pub logs: Vec<Vec<u8>>,
    pub receipt_ids: Vec<CryptoHash>,
    pub gas_burnt: u64,
    pub tokens_burnt: Option<BigInt>,
    pub executor_id: Vec<u8>,
    pub status: Option<ExecutionStatus>,
}

/// The tagged union over outcome statuses.
/// Alternatives: unknown = 1, failure = 2, success_value = 3,
/// success_receipt_id = 4.
#[derive(Clone, Debug, PartialEq)]
pub struct ExecutionStatus {
    pub status: Option<execution_status::Status>,
}

/// Success carrying a returned value. Field: value = 1.
#[derive(Clone, Debug, PartialEq)]
pub struct SuccessValueExecutionStatus {
    pub value: Vec<u8>,
}

/// Success carrying the identifier of a produced receipt. Field: id = 1.
#[derive(Clone, Debug, PartialEq)]
pub struct SuccessReceiptIdExecutionStatus {
    pub id: Option<CryptoHash>,
}

/// An outcome whose status is not known.
#[derive(Clone, Debug, PartialEq)]
pub struct UnknownExecutionStatus {
}

/// A failed outcome carrying its error. Field: error = 1.
#[derive(Clone, Debug, PartialEq)]
pub struct FailureExecutionStatus {
    pub error: Option<TxExecutionError>,
}

// ---- the error taxonomy ----

/// The top split of the error taxonomy.
/// Alternatives: action_error = 1, invalid_tx_error = 2.
#[derive(Clone, Debug, PartialEq)]
pub struct TxExecutionError {
    pub error: Option<tx_execution_error::Error>,
}

/// An error raised while applying one action.
/// Fields: index = 1, kind = 2.
#[derive(Clone, Debug, PartialEq)]
pub struct ActionError {
    pub index: u64,
    pub kind: Option<ActionErrorKind>,
}

/// The tagged union over action error kinds; alternatives are numbered
/// 1..=22 in the order declared in its submodule.
#[derive(Clone, Debug, PartialEq)]
pub struct ActionErrorKind {
    pub kind: Option<action_error_kind::Kind>,
}

/// Field: account_id = 1.
#[derive(Clone, Debug, PartialEq)]
pub struct AccountAlreadyExistsErrorKind {
    pub account_id: Vec<u8>,
}

/// Field: account_id = 1.
#[derive(Clone, Debug, PartialEq)]
pub struct AccountDoesNotExistErrorKind {
    pub account_id: Vec<u8>,
}

/// Fields: account_id = 1, registrar_account_id = 2, predecessor_id = 3.
#[derive(Clone, Debug, PartialEq)]
pub struct CreateAccountOnlyByRegistrarErrorKind {
    pub account_id: Vec<u8>,
    pub registrar_account_id: Vec<u8>,
    pub predecessor_id: Vec<u8>,
}

/// Fields: account_id = 1, predecessor_id = 2.
#[derive(Clone, Debug, PartialEq)]
pub struct CreateAccountNotAllowedErrorKind {
    pub account_id: Vec<u8>,
    pub predecessor_id: Vec<u8>,
}

/// Fields: account_id = 1, actor_id = 2.
#[derive(Clone, Debug, PartialEq)]
pub struct ActorNoPermissionErrorKind {
    pub account_id: Vec<u8>,
    pub actor_id: Vec<u8>,
}

/// Fields: account_id = 1, public_key = 2.
#[derive(Clone, Debug, PartialEq)]
pub struct DeleteKeyDoesNotExistErrorKind {
    pub account_id: Vec<u8>,
    pub public_key: Option<PublicKey>,
}

/// Fields: account_id = 1, public_key = 2.
#[derive(Clone, Debug, PartialEq)]
pub struct AddKeyAlreadyExistsErrorKind {
    pub account_id: Vec<u8>,
    pub public_key: Option<PublicKey>,
}

/// Field: account_id = 1. The account id is carried through; it is never
/// substituted by an empty string.
#[derive(Clone, Debug, PartialEq)]
pub struct DeleteAccountStakingErrorKind {
    pub account_id: Vec<u8>,
}

/// Fields: account_id = 1, balance = 2.
#[derive(Clone, Debug, PartialEq)]
pub struct LackBalanceForStateErrorKind {
    pub account_id: Vec<u8>,
    pub balance: Option<BigInt>,
}

/// Field: account_id = 1.
#[derive(Clone, Debug, PartialEq)]
pub struct TriesToUnstakeErrorKind {
    pub account_id: Vec<u8>,
}

/// Fields: account_id = 1, stake = 2, locked = 3, balance = 4.
#[derive(Clone, Debug, PartialEq)]
pub struct TriesToStakeErrorKind {
    pub account_id: Vec<u8>,
    pub stake: Option<BigInt>,
    pub locked: Option<BigInt>,
    pub balance: Option<BigInt>,
}

/// Fields: account_id = 1, stake = 2, minimum_stake = 3.
#[derive(Clone, Debug, PartialEq)]
pub struct InsufficientStakeErrorKind {
    pub account_id: Vec<u8>,
    pub stake: Option<BigInt>,
    pub minimum_stake: Option<BigInt>,
}

/// A function-call failure collapsed to its closed failure class; the
/// class detail beyond the code is intentionally omitted (a documented
/// lossy simplification). Field: error = 1.
#[derive(Clone, Debug, PartialEq)]
pub struct FunctionCallErrorKind {
    pub error: i32,
}

/// A receipt-validation failure collapsed to its closed failure class;
/// the detail beyond the code is intentionally omitted (a documented
/// lossy simplification). Field: error = 1.
#[derive(Clone, Debug, PartialEq)]
pub struct NewReceiptValidationErrorKind {
    pub error: i32,
}

/// Field: account_id = 1.
#[derive(Clone, Debug, PartialEq)]
pub struct OnlyImplicitAccountCreationAllowedErrorKind {
    pub account_id: Vec<u8>,
}

/// Field: account_id = 1.
#[derive(Clone, Debug, PartialEq)]
pub struct DeleteAccountWithLargeStateErrorKind {
    pub account_id: Vec<u8>,
}

/// A delegated action whose signature did not verify.
#[derive(Clone, Debug, PartialEq)]
pub struct DelegateActionInvalidSignatureKind {
}

/// Fields: sender_id = 1, receiver_id = 2.
#[derive(Clone, Debug, PartialEq)]
pub struct DelegateActionSenderDoesNotMatchTxReceiverKind {
    pub sender_id: Vec<u8>,
    pub receiver_id: Vec<u8>,
}

/// A delegated action past its expiry height.
#[derive(Clone, Debug, PartialEq)]
pub struct DelegateActionExpiredKind {
}

/// A delegated action rejected for an access-key error; the key error
/// detail is intentionally omitted.
#[derive(Clone, Debug, PartialEq)]
pub struct DelegateActionAccessKeyErrorKind {
}

/// Fields: delegate_nonce = 1, ak_nonce = 2.
#[derive(Clone, Debug, PartialEq)]
pub struct DelegateActionInvalidNonceKind {
    pub delegate_nonce: u64,
    pub ak_nonce: u64,
}

/// Fields: delegate_nonce = 1, upper_bound = 2.
#[derive(Clone, Debug, PartialEq)]
pub struct DelegateActionNonceTooLargeKind {
    pub delegate_nonce: u64,
    pub upper_bound: u64,
}

/// The closed set of transaction validation failure reasons, carried as a
/// plain numeric tag with no payload.
#[derive(Clone, Copy, Debug, PartialEq, Eq, Structural)]
pub enum InvalidTxError {
    InvalidAccessKeyError,
    InvalidSignerId,
    SignerDoesNotExist,
    InvalidNonce,
    NonceTooLarge,
    InvalidReceiverId,
    InvalidSignature,
    NotEnoughBalance,
    LackBalanceForState,
    CostOverflow,
    InvalidChain,
    Expired,
    ActionsValidation,
    TransactionSizeExceeded,
}

/// The numeric tag an invalid-transaction reason is carried as.
pub open spec fn spec_invalid_tx_error_tag(e: InvalidTxError) -> i32 {
    match e {
        InvalidTxError::InvalidAccessKeyError => 0,
        InvalidTxError::InvalidSignerId => 1,
        InvalidTxError::SignerDoesNotExist => 2,
        InvalidTxError::InvalidNonce => 3,
        InvalidTxError::NonceTooLarge => 4,
        InvalidTxError::InvalidReceiverId => 5,
        InvalidTxError::InvalidSignature => 6,
        InvalidTxError::NotEnoughBalance => 7,
        InvalidTxError::LackBalanceForState => 8,
        InvalidTxError::CostOverflow => 9,
        InvalidTxError::InvalidChain => 10,
        InvalidTxError::Expired => 11,
        InvalidTxError::ActionsValidation => 12,
        InvalidTxError::TransactionSizeExceeded => 13,
    }
}

/// The numeric tag an invalid-transaction reason is carried as.
pub fn invalid_tx_error_tag(e: InvalidTxError) -> (r: i32)
    ensures
        r == spec_invalid_tx_error_tag(e),
{
    match e {
        InvalidTxError::InvalidAccessKeyError => 0,
        InvalidTxError::InvalidSignerId => 1,
        InvalidTxError::SignerDoesNotExist => 2,
        InvalidTxError::InvalidNonce => 3,
        InvalidTxError::NonceTooLarge => 4,
        InvalidTxError::InvalidReceiverId => 5,
        InvalidTxError::InvalidSignature => 6,
        InvalidTxError::NotEnoughBalance => 7,
        InvalidTxError::LackBalanceForState => 8,
        InvalidTxError::CostOverflow => 9,
        InvalidTxError::InvalidChain => 10,
        InvalidTxError::Expired => 11,
        InvalidTxError::ActionsValidation => 12,
        InvalidTxError::TransactionSizeExceeded => 13,
    }
}

/// The closed set of function-call failure classes.
#[derive(Clone, Copy, Debug, PartialEq, Eq, Structural)]
pub enum FunctionCallErrorSer {
    CompilationError,
    LinkError,
    MethodResolveError,
    WasmTrap,
    WasmUnknownError,
    HostError,
    EvmError,
    ExecutionError,
}

/// The numeric tag a function-call failure class is carried as.
pub open spec fn spec_function_call_error_tag(e: FunctionCallErrorSer) -> i32 {
    match e {
        FunctionCallErrorSer::CompilationError => 0,
        FunctionCallErrorSer::LinkError => 1,
        FunctionCallErrorSer::MethodResolveError => 2,
        FunctionCallErrorSer::WasmTrap => 3,
        FunctionCallErrorSer::WasmUnknownError => 4,
        FunctionCallErrorSer::HostError => 5,
        FunctionCallErrorSer::EvmError => 6,
        FunctionCallErrorSer::ExecutionError => 7,
    }
}

/// The numeric tag a function-call failure class is carried as.
pub fn function_call_error_tag(e: FunctionCallErrorSer) -> (r: i32)
    ensures
        r == spec_function_call_error_tag(e),
{
    match e {
        FunctionCallErrorSer::CompilationError => 0,
        FunctionCallErrorSer::LinkError => 1,
        FunctionCallErrorSer::MethodResolveError => 2,
        FunctionCallErrorSer::WasmTrap => 3,
        FunctionCallErrorSer::WasmUnknownError => 4,
        FunctionCallErrorSer::HostError => 5,
        FunctionCallErrorSer::EvmError => 6,
        FunctionCallErrorSer::ExecutionError => 7,
    }
}

/// The closed set of receipt-validation failure classes.
#[derive(Clone, Copy, Debug, PartialEq, Eq, Structural)]
pub enum ReceiptValidationError {
    InvalidPredecessorId,
    InvalidReceiverAccountId,
    InvalidSignerAccountId,
    InvalidDataReceiverId,
    ReturnedValueLengthExceeded,
    NumberInputDataDependenciesExceeded,
    ActionsValidationError,
}

/// The numeric tag a receipt-validation failure class is carried as.
pub open spec fn spec_receipt_validation_error_tag(e: ReceiptValidationError) -> i32 {
    match e {
        ReceiptValidationError::InvalidPredecessorId => 0,
        ReceiptValidationError::InvalidReceiverAccountId => 1,
        ReceiptValidationError::InvalidSignerAccountId => 2,
        ReceiptValidationError::InvalidDataReceiverId => 3,
        ReceiptValidationError::ReturnedValueLengthExceeded => 4,
        ReceiptValidationError::NumberInputDataDependenciesExceeded => 5,
        ReceiptValidationError::ActionsValidationError => 6,
    }
}

/// The numeric tag a receipt-validation failure class is carried as.
pub fn receipt_validation_error_tag(e: ReceiptValidationError) -> (r: i32)
    ensures
        r == spec_receipt_validation_error_tag(e),
{
    match e {
        ReceiptValidationError::InvalidPredecessorId => 0,
        ReceiptValidationError::InvalidReceiverAccountId => 1,
        ReceiptValidationError::InvalidSignerAccountId => 2,
        ReceiptValidationError::InvalidDataReceiverId => 3,
        ReceiptValidationError::ReturnedValueLengthExceeded => 4,
        ReceiptValidationError::NumberInputDataDependenciesExceeded => 5,
        ReceiptValidationError::ActionsValidationError => 6,
    }
}

// ---- merkle proofs ----

/// An inclusion proof: an ordered path of sibling hashes. Field: path = 1.
#[derive(Clone, Debug, PartialEq)]
pub struct MerklePath {
    pub path: Vec<MerklePathItem>,
}

/// One step of a proof path. Fields: hash = 1, direction = 2.
#[derive(Clone, Debug, PartialEq)]
pub struct MerklePathItem {
    pub hash: Option<CryptoHash>,
    pub direction: i32,
}

/// Which side a proof-path sibling lies on.
#[derive(Clone, Copy, Debug, PartialEq, Eq, Structural)]
pub enum Direction {
    Left,
    Right,
}

/// The numeric tag a direction is carried as.
pub open spec fn spec_direction_tag(d: Direction) -> i32 {
    match d {
        Direction::Left => 0,
        Direction::Right => 1,
    }
}

/// The numeric tag a direction is carried as.
pub fn direction_tag(d: Direction) -> (r: i32)
    ensures
        r == spec_direction_tag(d),
{
    match d {
        Direction::Left => 0,
        Direction::Right => 1,
    }
}

// ---- actions ----

/// One operation requested by a transaction; exactly one alternative of
/// the union in the `action` submodule is populated.
/// Alternatives are numbered 1..=9 in declaration order.
#[derive(Clone, Debug, PartialEq)]
pub struct Action {
    pub action: Option<action::Action>,
}

/// Creation of the receiver account.
#[derive(Clone, Debug, PartialEq)]
pub struct CreateAccountAction {
}

/// Field: code = 1.
#[derive(Clone, Debug, PartialEq)]
pub struct DeployContractAction {
    pub code: Vec<u8>,
}

/// Fields: method_name = 1, args = 2, gas = 3, deposit = 4.
#[derive(Clone, Debug, PartialEq)]
pub struct FunctionCallAction {
    pub method_name: Vec<u8>,
    pub args: Vec<u8>,
    pub gas: u64,
    pub deposit: Option<BigInt>,
}

/// Field: deposit = 1.
#[derive(Clone, Debug, PartialEq)]
pub struct TransferAction {
    pub deposit: Option<BigInt>,
}

/// Fields: stake = 1, public_key = 2.
#[derive(Clone, Debug, PartialEq)]
pub struct StakeAction {
    pub stake: Option<BigInt>,
    pub public_key: Option<PublicKey>,
}

/// Fields: public_key = 1, access_key = 2.
#[derive(Clone, Debug, PartialEq)]
pub struct AddKeyAction {
    pub public_key: Option<PublicKey>,
    pub access_key: Option<AccessKey>,
}

/// Field: public_key = 1.
#[derive(Clone, Debug, PartialEq)]
pub struct DeleteKeyAction {
    pub public_key: Option<PublicKey>,
}

/// Field: beneficiary_id = 1.
#[derive(Clone, Debug, PartialEq)]
pub struct DeleteAccountAction {
    pub beneficiary_id: Vec<u8>,
}

/// A delegated batch of actions with the signature that authorizes it.
/// Fields: delegate_action = 1, signature = 2.
#[derive(Clone, Debug, PartialEq)]
pub struct SignedDelegateAction {
    pub delegate_action: Option<DelegateAction>,
    pub signature: Option<Signature>,
}

/// The delegated batch itself: sender, receiver, the nested actions (none
/// of which may itself delegate), nonce, expiry height and signing key.
/// Fields: sender_id = 1, receiver_id = 2, actions = 3, nonce = 4,
/// max_block_height = 5, public_key = 6.
#[derive(Clone, Debug, PartialEq)]
pub struct DelegateAction {
    pub sender_id: Vec<u8>,
    pub receiver_id: Vec<u8>,
    pub actions: Vec<NonDelegateAction>,
    pub nonce: u64,
    pub max_block_height: u64,
    pub public_key: Option<PublicKey>,
}

/// An action nested inside a delegated batch; the union in the
/// `non_delegate_action` submodule repeats the first eight alternatives of
/// `action::Action` under the same numbers, and excludes delegation.
#[derive(Clone, Debug, PartialEq)]
pub struct NonDelegateAction {
    pub action: Option<non_delegate_action::Action>,
}

// ---- access keys ----

/// Fields: nonce = 1, permission = 2.
#[derive(Clone, Debug, PartialEq)]
pub struct AccessKey {
    pub nonce: u64,
    pub permission: Option<AccessKeyPermission>,
}

/// The tagged union over access-key permissions.
/// Alternatives: function_call = 1, full_access = 2.
#[derive(Clone, Debug, PartialEq)]
pub struct AccessKeyPermission {
    pub permission: Option<access_key_permission::Permission>,
}

/// Fields: allowance = 1, receiver_id = 2, method_names = 3.
#[derive(Clone, Debug, PartialEq)]
pub struct FunctionCallPermission {
    pub allowance: Option<BigInt>,
    pub receiver_id: Vec<u8>,
    pub method_names: Vec<Vec<u8>>,
}

/// Unrestricted use of the key.
#[derive(Clone, Debug, PartialEq)]
pub struct FullAccessPermission {
}

// ---- state changes (schema-only; never filled by this layer) ----

/// A state change with the cause that produced it.
/// Fields: cause = 1, value = 2.
#[derive(Clone, Debug, PartialEq)]
pub struct StateChangeWithCause {
    pub cause: Option<StateChangeCause>,
    pub value: Option<StateChangeValue>,
}

/// The tagged union over state-change causes; alternatives are numbered
/// 1..=10 in the order declared in its submodule.
#[derive(Clone, Debug, PartialEq)]
pub struct StateChangeCause {
    pub cause: Option<state_change_cause::Cause>,
}

#[derive(Clone, Debug, PartialEq)]
pub struct NotWritableToDisk {
}

#[derive(Clone, Debug, PartialEq)]
pub struct InitialState {
}

/// Field: tx_hash = 1.
#[derive(Clone, Debug, PartialEq)]
pub struct TransactionProcessing {
    pub tx_hash: Option<CryptoHash>,
}

/// Field: receipt_hash = 1.
#[derive(Clone, Debug, PartialEq)]
pub struct ActionReceiptProcessingStarted {
    pub receipt_hash: Option<CryptoHash>,
}

/// Field: tx_hash = 1.
#[derive(Clone, Debug, PartialEq)]
pub struct ActionReceiptGasReward {
    pub tx_hash: Option<CryptoHash>,
}

/// Field: tx_hash = 1.
#[derive(Clone, Debug, PartialEq)]
pub struct ReceiptProcessing {
    pub tx_hash: Option<CryptoHash>,
}

/// Field: tx_hash = 1.
#[derive(Clone, Debug, PartialEq)]
pub struct PostponedReceipt {
    pub tx_hash: Option<CryptoHash>,
}

#[derive(Clone, Debug, PartialEq)]
pub struct UpdatedDelayedReceipts {
}

#[derive(Clone, Debug, PartialEq)]
pub struct ValidatorAccountsUpdate {
}

#[derive(Clone, Debug, PartialEq)]
pub struct Migration {
}

/// The tagged union over changed values; alternatives are numbered 1..=8
/// in the order declared in its submodule.
#[derive(Clone, Debug, PartialEq)]
pub struct StateChangeValue {
    pub value: Option<state_change_value::Value>,
}

/// Fields: account_id = 1, account = 2.
#[derive(Clone, Debug, PartialEq)]
pub struct AccountUpdate {
    pub account_id: Vec<u8>,
    pub account: Option<Account>,
}

/// Field: account_id = 1.
#[derive(Clone, Debug, PartialEq)]
pub struct AccountDeletion {
    pub account_id: Vec<u8>,
}

/// Fields: account_id = 1, public_key = 2, access_key = 3.
#[derive(Clone, Debug, PartialEq)]
pub struct AccessKeyUpdate {
    pub account_id: Vec<u8>,
    pub public_key: Option<PublicKey>,
    pub access_key: Option<AccessKey>,
}

/// Fields: account_id = 1, public_key = 2.
#[derive(Clone, Debug, PartialEq)]
pub struct AccessKeyDeletion {
    pub account_id: Vec<u8>,
    pub public_key: Option<PublicKey>,
}

/// Fields: account_id = 1, key = 2, value = 3.
#[derive(Clone, Debug, PartialEq)]
pub struct DataUpdate {
    pub account_id: Vec<u8>,
    pub key: Vec<u8>,
    pub value: Vec<u8>,
}

/// Fields: account_id = 1, key = 2.
#[derive(Clone, Debug, PartialEq)]
pub struct DataDeletion {
    pub account_id: Vec<u8>,
    pub key: Vec<u8>,
}

/// Fields: account_id = 1, code = 2.
#[derive(Clone, Debug, PartialEq)]
pub struct ContractCodeUpdate {
    pub account_id: Vec<u8>,
    pub code: Vec<u8>,
}

/// Field: account_id = 1.
#[derive(Clone, Debug, PartialEq)]
pub struct ContractCodeDeletion {
    pub account_id: Vec<u8>,
}

/// An account's balance sheet. Fields: amount = 1, locked = 2,
/// code_hash = 3, storage_usage = 4.
#[derive(Clone, Debug, PartialEq)]
pub struct Account {
    pub amount: Option<BigInt>,
    pub locked: Option<BigInt>,
    pub code_hash: Option<CryptoHash>,
    pub storage_usage: u64,
}

} // verus!
