//! The projection engine, part three: execution outcomes, receipts,
//! transactions, shards, and the block root.

use vstd::prelude::*;
use crate::actions::project_actions;
use crate::actions::rel_action;
use crate::domain::DomainBlock;
use crate::domain::DomainChunk;
use crate::domain::DomainDataReceiver;
use crate::domain::DomainDirection;
use crate::domain::DomainExecutionOutcome;
use crate::domain::DomainExecutionStatus;
use crate::domain::DomainMerklePathItem;
use crate::domain::DomainOutcomeWithId;
use crate::domain::DomainOutcomeWithOptionalReceipt;
use crate::domain::DomainOutcomeWithReceipt;
use crate::domain::DomainReceipt;
use crate::domain::DomainReceiptEnum;
use crate::domain::DomainShard;
use crate::domain::DomainSignedTransaction;
use crate::domain::DomainTransactionWithOutcome;
use crate::pb;
use crate::project::rel_big;
use crate::project::rel_block_header;
use crate::project::rel_chunk_header;
use crate::project::rel_hash;
use crate::project::rel_public_key;
use crate::project::rel_signature_opt;
use crate::project::project_big;
use crate::project::project_block_header;
use crate::project::project_chunk_header;
use crate::project::project_chunk_headers;
use crate::project::project_hash;
use crate::project::project_public_key;
use crate::project::project_signature;
use crate::taxonomy::map_tx_error;
use crate::taxonomy::rel_tx_error;
use crate::util::copy_bytes;
use crate::util::copy_bytes_list;

verus! {

/// The wire form of one proof-path step.
pub open spec fn rel_merkle_item(d: DomainMerklePathItem, w: pb::MerklePathItem) -> bool {
    &&& rel_hash(d.hash, w.hash)
    &&& w.direction == (match d.direction {
        DomainDirection::Left => 0i32,
        DomainDirection::Right => 1i32,
    })
}

/// The wire form of an inclusion proof: the path in its original order.
pub open spec fn rel_merkle_path(d: Seq<DomainMerklePathItem>, w: Option<pb::MerklePath>)
    -> bool {
    &&& w matches Some(p)
    &&& p.path@.len() == d.len()
    &&& (forall|i: int| 0 <= i < d.len() ==> rel_merkle_item(d[i], p.path@[i]))
}

/// The wire status corresponding to each domain outcome status; a failure
/// carries the mapped error taxonomy value.
pub open spec fn rel_status(d: DomainExecutionStatus, w: Option<pb::ExecutionStatus>) -> bool {
    &&& w matches Some(s)
    &&& (match d {
        DomainExecutionStatus::Unknown => s.status matches Some(
            pb::execution_status::Status::Unknown(_u),
        ),
        DomainExecutionStatus::SuccessValue(v) => s.status matches Some(
            pb::execution_status::Status::SuccessValue(p),
        ) && p.value@ == v@,
        DomainExecutionStatus::SuccessReceiptId(h) => s.status matches Some(
            pb::execution_status::Status::SuccessReceiptId(p),
        ) && rel_hash(h, p.id),
        DomainExecutionStatus::Failure(e) => s.status matches Some(
            pb::execution_status::Status::Failure(p),
        ) && (p.error matches Some(te) && rel_tx_error(e, te)),
    })
}

/// The wire form of an execution outcome: logs and receipt ids in their
/// original order, the burnt tokens big-endian encoded, and the status
/// mapped through the error taxonomy.
pub open spec fn rel_execution_outcome(d: DomainExecutionOutcome, w: Option<pb::ExecutionOutcome>)
    -> bool {
    &&& w matches Some(o)
    &&& o.logs@.len() == d.logs@.len()
    &&& (forall|i: int| 0 <= i < d.logs@.len() ==> o.logs@[i]@ == d.logs@[i]@)
    &&& o.receipt_ids@.len() == d.receipt_ids@.len()
    &&& (forall|i: int|
        0 <= i < d.receipt_ids@.len() ==> o.receipt_ids@[i].bytes@ == d.receipt_ids@[i].bytes@)
    &&& o.gas_burnt == d.gas_burnt
    &&& rel_big(d.tokens_burnt, o.tokens_burnt)
    &&& o.executor_id@ == d.executor_id@
    &&& rel_status(d.status, o.status)
}

/// The wire form of an execution outcome with its identity and proof.
pub open spec fn rel_outcome_with_id(d: DomainOutcomeWithId, w: Option<
    pb::ExecutionOutcomeWithIdView,
>) -> bool {
    &&& w matches Some(o)
    &&& rel_merkle_path(d.proof@, o.proof)
    &&& rel_hash(d.block_hash, o.block_hash)
    &&& rel_hash(d.id, o.id)
    &&& rel_execution_outcome(d.outcome, o.outcome)
}

/// The wire form of a data receiver.
pub open spec fn rel_data_receiver(d: DomainDataReceiver, w: pb::DataReceiver) -> bool {
    rel_hash(d.data_id, w.data_id) && w.receiver_id@ == d.receiver_id@
}

/// The wire form of a receipt: identity fields carried over, and exactly
/// the alternative of the body union that corresponds to the domain body.
/// Absent data in a data-delivery body is carried as the empty value.
pub open spec fn rel_receipt(d: DomainReceipt, w: pb::Receipt) -> bool {
    &&& w.predecessor_id@ == d.predecessor_id@
    &&& w.receiver_id@ == d.receiver_id@
    &&& rel_hash(d.receipt_id, w.receipt_id)
    &&& w.receipt matches Some(re)
    &&& (match d.receipt {
        DomainReceiptEnum::Action(a) => re.receipt matches Some(
            pb::receipt_enum::Receipt::Action(p),
        ) && {
            &&& p.signer_id@ == a.signer_id@
            &&& rel_public_key(a.signer_public_key, p.signer_public_key)
            &&& rel_big(a.gas_price, p.gas_price)
            &&& p.output_data_receivers@.len() == a.output_data_receivers@.len()
            &&& (forall|i: int|
                0 <= i < a.output_data_receivers@.len() ==> rel_data_receiver(
                    a.output_data_receivers@[i],
                    p.output_data_receivers@[i],
                ))
            &&& p.input_data_ids@.len() == a.input_data_ids@.len()
            &&& (forall|i: int|
                0 <= i < a.input_data_ids@.len() ==> p.input_data_ids@[i].bytes@
                    == a.input_data_ids@[i].bytes@)
            &&& p.actions@.len() == a.actions@.len()
            &&& (forall|i: int|
                0 <= i < a.actions@.len() ==> rel_action(a.actions@[i], p.actions@[i]))
        },
        DomainReceiptEnum::Data(b) => re.receipt matches Some(
            pb::receipt_enum::Receipt::Data(p),
        ) && rel_hash(b.data_id, p.data_id) && (match b.data {
            Some(bytes) => p.data@ == bytes@,
            None => p.data@.len() == 0,
        }),
    })
}

/// The wire form of a signed transaction.
pub open spec fn rel_signed_transaction(d: DomainSignedTransaction, w: Option<
    pb::SignedTransaction,
>) -> bool {
    &&& w matches Some(t)
    &&& t.signer_id@ == d.signer_id@
    &&& rel_public_key(d.public_key, t.public_key)
    &&& t.nonce == d.nonce
    &&& t.receiver_id@ == d.receiver_id@
    &&& t.actions@.len() == d.actions@.len()
    &&& (forall|i: int| 0 <= i < d.actions@.len() ==> rel_action(d.actions@[i], t.actions@[i]))
    &&& rel_signature_opt(d.signature, t.signature)
    &&& rel_hash(d.hash, t.hash)
}

/// The wire form of a transaction with its conversion outcome.
pub open spec fn rel_tx_with_outcome(d: DomainTransactionWithOutcome, w: pb::IndexerTransactionWithOutcome)
    -> bool {
    &&& rel_signed_transaction(d.transaction, w.transaction)
    &&& w.outcome matches Some(o)
    &&& rel_outcome_with_id(d.outcome.execution_outcome, o.execution_outcome)
    &&& (match d.outcome.receipt {
        Some(r) => o.receipt matches Some(wr) && rel_receipt(r, wr),
        None => o.receipt is None,
    })
}

/// The wire form of an outcome paired with the receipt it executed.
pub open spec fn rel_outcome_with_receipt(d: DomainOutcomeWithReceipt, w: pb::IndexerExecutionOutcomeWithReceipt)
    -> bool {
    &&& rel_outcome_with_id(d.execution_outcome, w.execution_outcome)
    &&& w.receipt matches Some(r) && rel_receipt(d.receipt, r)
}

/// The wire form of a chunk: author, header, and the ordered transaction
/// and receipt lists.
pub open spec fn rel_chunk(d: DomainChunk, w: pb::IndexerChunk) -> bool {
    &&& w.author@ == d.author@
    &&& w.header matches Some(h) && rel_chunk_header(d.header, h)
    &&& w.transactions@.len() == d.transactions@.len()
    &&& (forall|i: int|
        0 <= i < d.transactions@.len() ==> rel_tx_with_outcome(
            d.transactions@[i],
            w.transactions@[i],
        ))
    &&& w.receipts@.len() == d.receipts@.len()
    &&& (forall|i: int| 0 <= i < d.receipts@.len() ==> rel_receipt(d.receipts@[i], w.receipts@[i]))
}

/// The wire form of a shard: its chunk where one was included, and the
/// ordered receipt execution outcomes.
pub open spec fn rel_shard(d: DomainShard, w: pb::IndexerShard) -> bool {
    &&& w.shard_id == d.shard_id
    &&& (match d.chunk {
        Some(c) => w.chunk matches Some(wc) && rel_chunk(c, wc),
        None => w.chunk is None,
    })
    &&& w.receipt_execution_outcomes@.len() == d.receipt_execution_outcomes@.len()
    &&& (forall|i: int|
        0 <= i < d.receipt_execution_outcomes@.len() ==> rel_outcome_with_receipt(
            d.receipt_execution_outcomes@[i],
            w.receipt_execution_outcomes@[i],
        ))
}

/// The wire form of a whole block: every required domain field has its
/// wire counterpart, ordered collections keep their order, and the
/// state-change list stays empty.
pub open spec fn rel_block(d: DomainBlock, w: pb::Block) -> bool {
    &&& w.author@ == d.author@
    &&& w.header matches Some(h) && rel_block_header(d.header, h)
    &&& w.chunk_headers@.len() == d.chunk_headers@.len()
    &&& (forall|i: int|
        0 <= i < d.chunk_headers@.len() ==> rel_chunk_header(
            d.chunk_headers@[i],
            w.chunk_headers@[i],
        ))
    &&& w.shards@.len() == d.shards@.len()
    &&& (forall|i: int| 0 <= i < d.shards@.len() ==> rel_shard(d.shards@[i], w.shards@[i]))
    &&& w.state_changes@.len() == 0
}

/// Project an inclusion proof.
pub fn project_merkle_path(d: &Vec<DomainMerklePathItem>) -> (r: pb::MerklePath)
    ensures
        rel_merkle_path(d@, Some(r)),
{
    let mut path: Vec<pb::MerklePathItem> = Vec::new();
    let n = d.len();
    let mut i: usize = 0;
    while i < n
        invariant
            i <= n,
            n == d@.len(),
            path@.len() == i,
            forall|j: int| 0 <= j < i ==> rel_merkle_item(d@[j], path@[j]),
        decreases n - i,
    {
        let dir: i32 = match d[i].direction {
            DomainDirection::Left => 0,
            DomainDirection::Right => 1,
        };
        let item = pb::MerklePathItem { hash: Some(project_hash(&d[i].hash)), direction: dir };
        path.push(item);
        i = i + 1;
    }
    pb::MerklePath { path }
}

/// Project a list of receipt ids.
fn project_hashes(d: &Vec<crate::domain::DomainHash>) -> (r: Vec<pb::CryptoHash>)
    ensures
        r@.len() == d@.len(),
        forall|i: int| 0 <= i < d@.len() ==> r@[i].bytes@ == d@[i].bytes@,
{
    let mut r: Vec<pb::CryptoHash> = Vec::new();
    let n = d.len();
    let mut i: usize = 0;
    while i < n
        invariant
            i <= n,
            n == d@.len(),
            r@.len() == i,
            forall|j: int| 0 <= j < i ==> r@[j].bytes@ == d@[j].bytes@,
        decreases n - i,
    {
        let item = project_hash(&d[i]);
        r.push(item);
        i = i + 1;
    }
    r
}

/// Project an outcome status, mapping a failure through the taxonomy.
pub fn project_status(d: &DomainExecutionStatus) -> (r: pb::ExecutionStatus)
    ensures
        rel_status(*d, Some(r)),
{
    let status = match d {
        DomainExecutionStatus::Unknown => pb::execution_status::Status::Unknown(
            pb::UnknownExecutionStatus {},
        ),
        DomainExecutionStatus::SuccessValue(v) => pb::execution_status::Status::SuccessValue(
            pb::SuccessValueExecutionStatus { value: copy_bytes(v) },
        ),
        DomainExecutionStatus::SuccessReceiptId(h) =>
            pb::execution_status::Status::SuccessReceiptId(
                pb::SuccessReceiptIdExecutionStatus { id: Some(project_hash(h)) },
            ),
        DomainExecutionStatus::Failure(e) => pb::execution_status::Status::Failure(
            pb::FailureExecutionStatus { error: Some(map_tx_error(e)) },
        ),
    };
    pb::ExecutionStatus { status: Some(status) }
}

/// Project an execution outcome.
pub fn project_execution_outcome(d: &DomainExecutionOutcome) -> (r: pb::ExecutionOutcome)
    ensures
        rel_execution_outcome(*d, Some(r)),
{
    pb::ExecutionOutcome {
        logs: copy_bytes_list(&d.logs),
        receipt_ids: project_hashes(&d.receipt_ids),
        gas_burnt: d.gas_burnt,
        tokens_burnt: Some(project_big(d.tokens_burnt)),
        executor_id: copy_bytes(&d.executor_id),
        status: Some(project_status(&d.status)),
    }
}

/// Project an execution outcome with its identity and proof.
pub fn project_outcome_with_id(d: &DomainOutcomeWithId) -> (r: pb::ExecutionOutcomeWithIdView)
    ensures
        rel_outcome_with_id(*d, Some(r)),
{
    pb::ExecutionOutcomeWithIdView {
        proof: Some(project_merkle_path(&d.proof)),
        block_hash: Some(project_hash(&d.block_hash)),
        id: Some(project_hash(&d.id)),
        outcome: Some(project_execution_outcome(&d.outcome)),
    }
}

/// Project one receipt.
pub fn project_receipt(d: &DomainReceipt) -> (r: pb::Receipt)
    ensures
        rel_receipt(*d, r),
{
    let body = match &d.receipt {
        DomainReceiptEnum::Action(a) => {
            let mut receivers: Vec<pb::DataReceiver> = Vec::new();
            let n = a.output_data_receivers.len();
            let mut i: usize = 0;
            while i < n
                invariant
                    i <= n,
                    n == a.output_data_receivers@.len(),
                    receivers@.len() == i,
                    forall|j: int|
                        0 <= j < i ==> rel_data_receiver(
                            a.output_data_receivers@[j],
                            receivers@[j],
                        ),
                decreases n - i,
            {
                let dr = &a.output_data_receivers[i];
                let item = pb::DataReceiver {
                    data_id: Some(project_hash(&dr.data_id)),
                    receiver_id: copy_bytes(&dr.receiver_id),
                };
                receivers.push(item);
                i = i + 1;
            }
            pb::receipt_enum::Receipt::Action(
                pb::ReceiptAction {
                    signer_id: copy_bytes(&a.signer_id),
                    signer_public_key: Some(project_public_key(&a.signer_public_key)),
                    gas_price: Some(project_big(a.gas_price)),
                    output_data_receivers: receivers,
                    input_data_ids: project_hashes(&a.input_data_ids),
                    actions: project_actions(&a.actions),
                },
            )
        },
        DomainReceiptEnum::Data(b) => pb::receipt_enum::Receipt::Data(
            pb::ReceiptData {
                data_id: Some(project_hash(&b.data_id)),
                data: match &b.data {
                    Some(bytes) => copy_bytes(bytes),
                    None => Vec::new(),
                },
            },
        ),
    };
    pb::Receipt {
        predecessor_id: copy_bytes(&d.predecessor_id),
        receiver_id: copy_bytes(&d.receiver_id),
        receipt_id: Some(project_hash(&d.receipt_id)),
        receipt: Some(pb::ReceiptEnum { receipt: Some(body) }),
    }
}

/// Project an ordered list of receipts.
pub fn project_receipts(d: &Vec<DomainReceipt>) -> (r: Vec<pb::Receipt>)
    ensures
        r@.len() == d@.len(),
        forall|i: int| 0 <= i < d@.len() ==> rel_receipt(d@[i], r@[i]),
{
    let mut r: Vec<pb::Receipt> = Vec::new();
    let n = d.len();
    let mut i: usize = 0;
    while i < n
        invariant
            i <= n,
            n == d@.len(),
            r@.len() == i,
            forall|j: int| 0 <= j < i ==> rel_receipt(d@[j], r@[j]),
        decreases n - i,
    {
        let item = project_receipt(&d[i]);
        r.push(item);
        i = i + 1;
    }
    r
}

/// Project one signed transaction.
pub fn project_signed_transaction(d: &DomainSignedTransaction) -> (r: pb::SignedTransaction)
    ensures
        rel_signed_transaction(*d, Some(r)),
{
    pb::SignedTransaction {
        signer_id: copy_bytes(&d.signer_id),
        public_key: Some(project_public_key(&d.public_key)),
        nonce: d.nonce,
        receiver_id: copy_bytes(&d.receiver_id),
        actions: project_actions(&d.actions),
        signature: Some(project_signature(&d.signature)),
        hash: Some(project_hash(&d.hash)),
    }
}

/// Project one transaction with its conversion outcome.
pub fn project_tx_with_outcome(d: &DomainTransactionWithOutcome) -> (r:
    pb::IndexerTransactionWithOutcome)
    ensures
        rel_tx_with_outcome(*d, r),
{
    pb::IndexerTransactionWithOutcome {
        transaction: Some(project_signed_transaction(&d.transaction)),
        outcome: Some(
            pb::IndexerExecutionOutcomeWithOptionalReceipt {
                execution_outcome: Some(project_outcome_with_id(&d.outcome.execution_outcome)),
                receipt: match &d.outcome.receipt {
                    Some(r) => Some(project_receipt(r)),
                    None => None,
                },
            },
        ),
    }
}

/// Project one chunk.
pub fn project_chunk(d: &DomainChunk) -> (r: pb::IndexerChunk)
    ensures
        rel_chunk(*d, r),
{
    let mut transactions: Vec<pb::IndexerTransactionWithOutcome> = Vec::new();
    let n = d.transactions.len();
    let mut i: usize = 0;
    while i < n
        invariant
            i <= n,
            n == d.transactions@.len(),
            transactions@.len() == i,
            forall|j: int| 0 <= j < i ==> rel_tx_with_outcome(d.transactions@[j], transactions@[j]),
        decreases n - i,
    {
        let item = project_tx_with_outcome(&d.transactions[i]);
        transactions.push(item);
        i = i + 1;
    }
    pb::IndexerChunk {
        author: copy_bytes(&d.author),
        header: Some(project_chunk_header(&d.header)),
        transactions,
        receipts: project_receipts(&d.receipts),
    }
}

/// Project one shard.
pub fn project_shard(d: &DomainShard) -> (r: pb::IndexerShard)
    ensures
        rel_shard(*d, r),
{
    let mut outcomes: Vec<pb::IndexerExecutionOutcomeWithReceipt> = Vec::new();
    let n = d.receipt_execution_outcomes.len();
    let mut i: usize = 0;
    while i < n
        invariant
            i <= n,
            n == d.receipt_execution_outcomes@.len(),
            outcomes@.len() == i,
            forall|j: int|
                0 <= j < i ==> rel_outcome_with_receipt(
                    d.receipt_execution_outcomes@[j],
                    outcomes@[j],
                ),
        decreases n - i,
    {
        let o = &d.receipt_execution_outcomes[i];
        let item = pb::IndexerExecutionOutcomeWithReceipt {
            execution_outcome: Some(project_outcome_with_id(&o.execution_outcome)),
            receipt: Some(project_receipt(&o.receipt)),
        };
        outcomes.push(item);
        i = i + 1;
    }
    pb::IndexerShard {
        shard_id: d.shard_id,
        chunk: match &d.chunk {
            Some(c) => Some(project_chunk(c)),
            None => None,
        },
        receipt_execution_outcomes: outcomes,
    }
}

/// Project one whole domain block onto the wire block, bottom-up, in one
/// pass; the state-change list is always emitted empty.
pub fn project_block(d: &DomainBlock) -> (r: pb::Block)
    ensures
        rel_block(*d, r),
{
    let mut shards: Vec<pb::IndexerShard> = Vec::new();
    let n = d.shards.len();
    let mut i: usize = 0;
    while i < n
        invariant
            i <= n,
            n == d.shards@.len(),
            shards@.len() == i,
            forall|j: int| 0 <= j < i ==> rel_shard(d.shards@[j], shards@[j]),
        decreases n - i,
    {
        let item = project_shard(&d.shards[i]);
        shards.push(item);
        i = i + 1;
    }
    pb::Block {
        author: copy_bytes(&d.author),
        header: Some(project_block_header(&d.header)),
        chunk_headers: project_chunk_headers(&d.chunk_headers),
        shards,
        state_changes: Vec::new(),
    }
}

} // verus!
