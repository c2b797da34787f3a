//! The domain model: the library's own representation of a node-produced
//! per-block execution result. The external producer hands blocks over as
//! plain values of these types; every field the projection reads is
//! present here, account identifiers as UTF-8 bytes, balances as 128-bit
//! magnitudes, cryptographic material as curve-tagged byte blobs.

use vstd::prelude::*;

verus! {

/// The closed set of curve kinds of domain keys and signatures.
#[derive(Clone, Copy, Debug, PartialEq, Eq, Structural)]
pub enum CurveKind {
    Ed25519,
    Secp256k1,
}

/// A 32-byte hash.
#[derive(Clone, Debug, PartialEq)]
pub struct DomainHash {
    pub bytes: Vec<u8>,
}

impl DomainHash {
    /// A hash holds exactly 32 raw bytes.
    pub open spec fn wf(self) -> bool {
        self.bytes@.len() == 32
    }
}

/// A curve-tagged signature; the byte length is fixed by the curve.
#[derive(Clone, Debug, PartialEq)]
pub struct DomainSignature {
    pub curve: CurveKind,
    pub bytes: Vec<u8>,
}

impl DomainSignature {
    /// 64 bytes on Ed25519; 65 on Secp256k1, the recovery byte included.
    pub open spec fn wf(self) -> bool {
        match self.curve {
            CurveKind::Ed25519 => self.bytes@.len() == 64,
            CurveKind::Secp256k1 => self.bytes@.len() == 65,
        }
    }
}

/// A curve-tagged public key; the byte length is fixed by the curve.
#[derive(Clone, Debug, PartialEq)]
pub struct DomainPublicKey {
    pub curve: CurveKind,
    pub bytes: Vec<u8>,
}

impl DomainPublicKey {
    /// 32 bytes on Ed25519; 64 on Secp256k1.
    pub open spec fn wf(self) -> bool {
        match self.curve {
            CurveKind::Ed25519 => self.bytes@.len() == 32,
            CurveKind::Secp256k1 => self.bytes@.len() == 64,
        }
    }
}

/// A validator's stake proposal.
#[derive(Clone, Debug, PartialEq)]
pub struct DomainValidatorStake {
    pub account_id: Vec<u8>,
    pub public_key: DomainPublicKey,
    pub stake: u128,
}

/// A slashed validator named by a challenge result.
#[derive(Clone, Debug, PartialEq)]
pub struct DomainSlashedValidator {
    pub account_id: Vec<u8>,
    pub is_double_sign: bool,
}

/// The domain block header. `prev_height` is absent on source protocol
/// versions that predate it; approvals may each be absent where a
/// validator abstained.
#[derive(Clone, Debug, PartialEq)]
pub struct DomainBlockHeader {
    pub height: u64,
    pub prev_height: Option<u64>,
    pub epoch_id: DomainHash,
    pub next_epoch_id: DomainHash,
    pub hash: DomainHash,
    pub prev_hash: DomainHash,
    pub prev_state_root: DomainHash,
    pub chunk_receipts_root: DomainHash,
    pub chunk_headers_root: DomainHash,
    pub chunk_tx_root: DomainHash,
    pub outcome_root: DomainHash,
    pub chunks_included: u64,
    pub challenges_root: DomainHash,
    pub timestamp: u64,
    pub timestamp_nanosec: u64,
    pub random_value: DomainHash,
    pub validator_proposals: Vec<DomainValidatorStake>,
    pub chunk_mask: Vec<bool>,
    pub gas_price: u128,
    pub total_supply: u128,
    pub challenges_result: Vec<DomainSlashedValidator>,
    pub last_final_block: DomainHash,
    pub last_ds_final_block: DomainHash,
    pub next_bp_hash: DomainHash,
    pub block_merkle_root: DomainHash,
    pub approvals: Vec<Option<DomainSignature>>,
    pub signature: DomainSignature,
    pub latest_protocol_version: u32,
}

/// A chunk header.
#[derive(Clone, Debug, PartialEq)]
pub struct DomainChunkHeader {
    pub chunk_hash: DomainHash,
    pub prev_block_hash: DomainHash,
    pub outcome_root: DomainHash,
    pub prev_state_root: DomainHash,
    pub encoded_merkle_root: DomainHash,
    pub encoded_length: u64,
    pub height_created: u64,
    pub height_included: u64,
    pub shard_id: u64,
    pub gas_used: u64,
    pub gas_limit: u64,
    pub validator_reward: u128,
    pub balance_burnt: u128,
    pub outgoing_receipts_root: DomainHash,
    pub tx_root: DomainHash,
    pub validator_proposals: Vec<DomainValidatorStake>,
    pub signature: DomainSignature,
}

/// One domain block: header plus ordered shards, with the chunk headers
/// the block carries for every shard.
#[derive(Clone, Debug, PartialEq)]
pub struct DomainBlock {
    pub author: Vec<u8>,
    pub header: DomainBlockHeader,
    pub chunk_headers: Vec<DomainChunkHeader>,
    pub shards: Vec<DomainShard>,
}

/// One shard's slice of a block: its chunk, if one was included at this
/// height, and the outcomes of receipts executed in this shard.
#[derive(Clone, Debug, PartialEq)]
pub struct DomainShard {
    pub shard_id: u64,
    pub chunk: Option<DomainChunk>,
    pub receipt_execution_outcomes: Vec<DomainOutcomeWithReceipt>,
}

/// The chunk included in a shard: author, header, ordered transactions
/// and ordered receipts.
#[derive(Clone, Debug, PartialEq)]
pub struct DomainChunk {
    pub author: Vec<u8>,
    pub header: DomainChunkHeader,
    pub transactions: Vec<DomainTransactionWithOutcome>,
    pub receipts: Vec<DomainReceipt>,
}

/// A transaction with its conversion outcome.
#[derive(Clone, Debug, PartialEq)]
pub struct DomainTransactionWithOutcome {
    pub transaction: DomainSignedTransaction,
    pub outcome: DomainOutcomeWithOptionalReceipt,
}

/// A signed transaction.
#[derive(Clone, Debug, PartialEq)]
pub struct DomainSignedTransaction {
    pub signer_id: Vec<u8>,
    pub public_key: DomainPublicKey,
    pub nonce: u64,
    pub receiver_id: Vec<u8>,
    pub actions: Vec<DomainAction>,
    pub signature: DomainSignature,
    pub hash: DomainHash,
}

/// An execution outcome paired with the receipt it executed.
#[derive(Clone, Debug, PartialEq)]
pub struct DomainOutcomeWithReceipt {
    pub execution_outcome: DomainOutcomeWithId,
    pub receipt: DomainReceipt,
}

/// An execution outcome paired with its receipt where one exists.
#[derive(Clone, Debug, PartialEq)]
pub struct DomainOutcomeWithOptionalReceipt {
    pub execution_outcome: DomainOutcomeWithId,
    pub receipt: Option<DomainReceipt>,
}

/// An execution outcome with its identity and inclusion proof.
#[derive(Clone, Debug, PartialEq)]
pub struct DomainOutcomeWithId {
    pub proof: Vec<DomainMerklePathItem>,
    pub block_hash: DomainHash,
    pub id: DomainHash,
    pub outcome: DomainExecutionOutcome,
}

/// Which side a proof-path sibling lies on.
#[derive(Clone, Copy, Debug, PartialEq, Eq, Structural)]
pub enum DomainDirection {
    Left,
    Right,
}

/// One step of an inclusion proof path.
#[derive(Clone, Debug, PartialEq)]
pub struct DomainMerklePathItem {
    pub hash: DomainHash,
    pub direction: DomainDirection,
}

/// The result of executing a transaction or receipt.
#[derive(Clone, Debug, PartialEq)]
pub struct DomainExecutionOutcome {
    pub logs: Vec<Vec<u8>>,
    pub receipt_ids: Vec<DomainHash>,
    pub gas_burnt: u64,
    pub tokens_burnt: u128,
    pub executor_id: Vec<u8>,
    pub status: DomainExecutionStatus,
}

/// The closed union of outcome statuses.
#[derive(Clone, Debug, PartialEq)]
pub enum DomainExecutionStatus {
    Unknown,
    SuccessValue(Vec<u8>),
    SuccessReceiptId(DomainHash),
    Failure(DomainTxError),
}

/// A receipt: either a bundle of actions to apply or data to deliver.
#[derive(Clone, Debug, PartialEq)]
pub struct DomainReceipt {
    pub predecessor_id: Vec<u8>,
    pub receiver_id: Vec<u8>,
    pub receipt_id: DomainHash,
    pub receipt: DomainReceiptEnum,
}

/// The two receipt bodies.
#[derive(Clone, Debug, PartialEq)]
pub enum DomainReceiptEnum {
    Action(DomainReceiptAction),
    Data(DomainReceiptData),
}

/// An action receipt body.
#[derive(Clone, Debug, PartialEq)]
pub struct DomainReceiptAction {
    pub signer_id: Vec<u8>,
    pub signer_public_key: DomainPublicKey,
    pub gas_price: u128,
    pub output_data_receivers: Vec<DomainDataReceiver>,
    pub input_data_ids: Vec<DomainHash>,
    pub actions: Vec<DomainAction>,
}

/// A data-delivery receipt body; the data itself may be absent.
#[derive(Clone, Debug, PartialEq)]
pub struct DomainReceiptData {
    pub data_id: DomainHash,
    pub data: Option<Vec<u8>>,
}

/// A declared receiver of a receipt's output data.
#[derive(Clone, Debug, PartialEq)]
pub struct DomainDataReceiver {
    pub data_id: DomainHash,
    pub receiver_id: Vec<u8>,
}

/// The closed union of operations a transaction may request.
#[derive(Clone, Debug, PartialEq)]
pub enum DomainAction {
    CreateAccount,
    DeployContract { code: Vec<u8> },
    FunctionCall { method_name: Vec<u8>, args: Vec<u8>, gas: u64, deposit: u128 },
    Transfer { deposit: u128 },
    Stake { stake: u128, public_key: DomainPublicKey },
    AddKey { public_key: DomainPublicKey, access_key: DomainAccessKey },
    DeleteKey { public_key: DomainPublicKey },
    DeleteAccount { beneficiary_id: Vec<u8> },
    Delegate { delegate_action: DomainDelegateAction, signature: DomainSignature },
}

/// The delegated batch: its own sender, receiver, nested non-delegating
/// actions, nonce, expiry height and signing key.
#[derive(Clone, Debug, PartialEq)]
pub struct DomainDelegateAction {
    pub sender_id: Vec<u8>,
    pub receiver_id: Vec<u8>,
    pub actions: Vec<DomainNonDelegateAction>,
    pub nonce: u64,
    pub max_block_height: u64,
    pub public_key: DomainPublicKey,
}

/// An action nested inside a delegated batch; delegation cannot nest.
#[derive(Clone, Debug, PartialEq)]
pub enum DomainNonDelegateAction {
    CreateAccount,
    DeployContract { code: Vec<u8> },
    FunctionCall { method_name: Vec<u8>, args: Vec<u8>, gas: u64, deposit: u128 },
    Transfer { deposit: u128 },
    Stake { stake: u128, public_key: DomainPublicKey },
    AddKey { public_key: DomainPublicKey, access_key: DomainAccessKey },
    DeleteKey { public_key: DomainPublicKey },
    DeleteAccount { beneficiary_id: Vec<u8> },
}

/// An access key: a nonce and what the key may be used for.
#[derive(Clone, Debug, PartialEq)]
pub struct DomainAccessKey {
    pub nonce: u64,
    pub permission: DomainAccessKeyPermission,
}

/// What an access key may be used for.
#[derive(Clone, Debug, PartialEq)]
pub enum DomainAccessKeyPermission {
    FunctionCall {
        allowance: Option<u128>,
        receiver_id: Vec<u8>,
        method_names: Vec<Vec<u8>>,
    },
    FullAccess,
}

// ---- the domain error tree ----

/// The top split of a transaction execution error.
#[derive(Clone, Debug, PartialEq)]
pub enum DomainTxError {
    ActionError(DomainActionError),
    InvalidTxError(DomainInvalidTxError),
}

/// An error raised while applying one action; the index names which
/// action of the batch failed, where the node reported one.
#[derive(Clone, Debug, PartialEq)]
pub struct DomainActionError {
    pub index: Option<u64>,
    pub kind: DomainActionErrorKind,
}

/// The closed union of action error kinds.
#[derive(Clone, Debug, PartialEq)]
pub enum DomainActionErrorKind {
    AccountAlreadyExists { account_id: Vec<u8> },
    AccountDoesNotExist { account_id: Vec<u8> },
    CreateAccountOnlyByRegistrar {
        account_id: Vec<u8>,
        registrar_account_id: Vec<u8>,
        predecessor_id: Vec<u8>,
    },
    CreateAccountNotAllowed { account_id: Vec<u8>, predecessor_id: Vec<u8> },
    ActorNoPermission { account_id: Vec<u8>, actor_id: Vec<u8> },
    DeleteKeyDoesNotExist { account_id: Vec<u8>, public_key: DomainPublicKey },
    AddKeyAlreadyExists { account_id: Vec<u8>, public_key: DomainPublicKey },
    DeleteAccountStaking { account_id: Vec<u8> },
    LackBalanceForState { account_id: Vec<u8>, amount: u128 },
    TriesToUnstake { account_id: Vec<u8> },
    TriesToStake { account_id: Vec<u8>, stake: u128, locked: u128, balance: u128 },
    InsufficientStake { account_id: Vec<u8>, stake: u128, minimum_stake: u128 },
    FunctionCallError(DomainFunctionCallError),
    NewReceiptValidationError(DomainReceiptValidationError),
    OnlyImplicitAccountCreationAllowed { account_id: Vec<u8> },
    DeleteAccountWithLargeState { account_id: Vec<u8> },
    DelegateActionInvalidSignature,
    DelegateActionSenderDoesNotMatchTxReceiver { sender_id: Vec<u8>, receiver_id: Vec<u8> },
    DelegateActionExpired,
    DelegateActionAccessKeyError,
    DelegateActionInvalidNonce { delegate_nonce: u64, ak_nonce: u64 },
    DelegateActionNonceTooLarge { delegate_nonce: u64, upper_bound: u64 },
}

/// The closed set of function-call failure classes the node reports; the
/// class detail is not consumed by this layer.
#[derive(Clone, Copy, Debug, PartialEq, Eq, Structural)]
pub enum DomainFunctionCallError {
    CompilationError,
    LinkError,
    MethodResolveError,
    WasmTrap,
    WasmUnknownError,
    HostError,
    EvmError,
    ExecutionError,
}

/// The closed set of receipt-validation failure classes the node reports.
#[derive(Clone, Copy, Debug, PartialEq, Eq, Structural)]
pub enum DomainReceiptValidationError {
    InvalidPredecessorId,
    InvalidReceiverId,
    InvalidSignerId,
    InvalidDataReceiverId,
    ReturnedValueLengthExceeded,
    NumberInputDataDependenciesExceeded,
    ActionsValidation,
}

/// The closed set of transaction validation failure reasons.
#[derive(Clone, Copy, Debug, PartialEq, Eq, Structural)]
pub enum DomainInvalidTxError {
    InvalidAccessKeyError,
    InvalidSignerId,
    SignerDoesNotExist,
    InvalidNonce,
    NonceTooLarge,
    InvalidReceiverId,
    InvalidSignature,
    NotEnoughBalance,
    LackBalanceForState,
    CostOverflow,
    InvalidChain,
    Expired,
    ActionsValidation,
    TransactionSizeExceeded,
}

} // verus!
