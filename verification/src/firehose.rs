//! The per-block pipeline around the full record line format: project one
//! domain block, serialize it, and frame its record line. Writing the
//! line to the sink, and requesting the next block only after the line is
//! written, belong to the unverified shell around the library.

use vstd::prelude::*;
use crate::domain::DomainBlock;
use crate::emit::block_line_ready;
use crate::emit::fire_line;
use crate::emit::spec_fire_line;
use crate::outcomes::project_block;
use crate::outcomes::rel_block;
use crate::pb;

verus! {

/// Frame the record line of one projected block, exactly as the line
/// emitter's contract states it.
pub fn on_block(block: &pb::Block) -> (line: Vec<u8>)
    requires
        block_line_ready(*block),
    ensures
        line@ == spec_fire_line(*block),
{
    fire_line(block)
}

/// A projected block is always ready for its record line: the header and
/// every hash the line names are present, and the state-change list is
/// empty.
pub proof fn lemma_projected_block_line_ready(d: DomainBlock, w: pb::Block)
    requires
        rel_block(d, w),
    ensures
        block_line_ready(w),
{
}

/// The whole pipeline for one block: project the domain block and frame
/// its record line. Returns the wire block beside the line, so callers
/// can hold the line to the block it encodes.
pub fn process_block(d: &DomainBlock) -> (r: (pb::Block, Vec<u8>))
    ensures
        rel_block(*d, r.0),
        r.1@ == spec_fire_line(r.0),
{
    let block = project_block(d);
    proof {
        lemma_projected_block_line_ready(*d, block);
    }
    let line = fire_line(&block);
    (block, line)
}

/// The pipeline over a batch of sequential domain blocks: exactly one
/// record line per block, in the same order, each line framing its own
/// block's projection — no line is dropped, merged or reordered.
pub fn process_batch(ds: &Vec<DomainBlock>) -> (r: Vec<(pb::Block, Vec<u8>)>)
    ensures
        r@.len() == ds@.len(),
        forall|i: int|
            0 <= i < ds@.len() ==> rel_block(ds@[i], (#[trigger] r@[i]).0) && r@[i].1@
                == spec_fire_line(r@[i].0),
{
    let mut r: Vec<(pb::Block, Vec<u8>)> = Vec::new();
    let n = ds.len();
    let mut i: usize = 0;
    while i < n
        invariant
            i <= n,
            n == ds@.len(),
            r@.len() == i,
            forall|j: int|
                0 <= j < i ==> rel_block(ds@[j], (#[trigger] r@[j]).0) && r@[j].1@
                    == spec_fire_line(r@[j].0),
        decreases n - i,
    {
        let item = process_block(&ds[i]);
        r.push(item);
        i = i + 1;
    }
    r
}

} // verus!
