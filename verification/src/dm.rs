//! The per-block pipeline around the summary record line format, which
//! frames only the block's height, hash and payload.

use vstd::prelude::*;
use crate::emit::block_line_ready;
use crate::emit::dm_line;
use crate::emit::spec_dm_line;
use crate::pb;

verus! {

/// Frame the summary-format record line of one projected block.
pub fn on_block(block: &pb::Block) -> (line: Vec<u8>)
    requires
        block_line_ready(*block),
    ensures
        line@ == spec_dm_line(*block),
{
    dm_line(block)
}

} // verus!
