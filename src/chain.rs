//! The chain data that the processor consumes: blocks with their receipts and
//! logs, notifications of changes to the canonical chain, and checkpoints.

use vstd::prelude::*;

use crate::address::Address;

verus! {

/// One log entry emitted while executing a transaction.
pub struct LogEntry {
    pub address: Address,
    pub data: Vec<u8>,
}

/// The receipt of one transaction: the logs it emitted, in emission order.
pub struct Receipt {
    pub logs: Vec<LogEntry>,
}

/// A block: its height, its hash and the receipts of its transactions in
/// block order.
pub struct Block {
    pub number: u64,
    pub hash: Vec<u8>,
    pub receipts: Vec<Receipt>,
}

/// One atomic change to the canonical chain.
pub enum ChainNotification {
    /// A contiguous range of blocks became canonical.
    Committed { new: Vec<Block> },
    /// The blocks of `old` were replaced by those of `new`.
    Reorged { old: Vec<Block>, new: Vec<Block> },
    /// The blocks of `old` were removed from the canonical chain.
    Reverted { old: Vec<Block> },
}

/// The highest block for which every extracted payload has finished running.
pub struct Checkpoint {
    pub height: u64,
    pub block_hash: Vec<u8>,
}

impl View for Checkpoint {
    type V = (u64, Seq<u8>);

    open spec fn view(&self) -> (u64, Seq<u8>) {
        (self.height, self.block_hash@)
    }
}

/// Block heights strictly increase along `blocks`.
pub open spec fn heights_ascending(blocks: Seq<Block>) -> bool {
    forall|i: int, j: int| 0 <= i < j < blocks.len() ==> blocks[i].number < blocks[j].number
}

/// A notification is well formed when the blocks of each of its ranges are
/// non-empty and strictly ordered by height.
pub open spec fn notification_wf(n: ChainNotification) -> bool {
    match n {
        ChainNotification::Committed { new } => new@.len() > 0 && heights_ascending(new@),
        ChainNotification::Reorged { old, new } => old@.len() > 0 && heights_ascending(old@)
            && new@.len() > 0 && heights_ascending(new@),
        ChainNotification::Reverted { old } => old@.len() > 0 && heights_ascending(old@),
    }
}

/// The checkpoint at the tip of a range of blocks: its last block.
pub open spec fn tip_of(blocks: Seq<Block>) -> Option<(u64, Seq<u8>)> {
    if blocks.len() == 0 {
        None
    } else {
        Some((blocks.last().number, blocks.last().hash@))
    }
}

/// The checkpoint that handling `n` emits: the tip of a committed range, and
/// none for a reorganisation or a revert.
pub open spec fn checkpoint_for(n: ChainNotification) -> Option<(u64, Seq<u8>)> {
    match n {
        ChainNotification::Committed { new } => tip_of(new@),
        _ => None,
    }
}

pub open spec fn checkpoint_view(c: Option<Checkpoint>) -> Option<(u64, Seq<u8>)> {
    match c {
        Some(c) => Some(c@),
        None => None,
    }
}

/// A copy of a byte vector.
pub fn copy_bytes(v: &Vec<u8>) -> (r: Vec<u8>)
    ensures
        r@ == v@,
{
    let mut r: Vec<u8> = Vec::new();
    let mut i: usize = 0;
    while i < v.len()
        invariant
            i <= v.len(),
            r@ == v@.subrange(0, i as int),
        decreases v.len() - i,
    {
        r.push(v[i]);
        i = i + 1;
        assert(r@ =~= v@.subrange(0, i as int));
    }
    assert(r@ =~= v@);
    r
}

impl Checkpoint {
    /// A copy of this checkpoint.
    pub fn duplicate(&self) -> (r: Checkpoint)
        ensures
            r@ == self@,
    {
        Checkpoint { height: self.height, block_hash: copy_bytes(&self.block_hash) }
    }

    /// The checkpoint at the tip of `blocks`, if there is any block.
    pub fn at_tip(blocks: &Vec<Block>) -> (r: Option<Checkpoint>)
        ensures
            checkpoint_view(r) == tip_of(blocks@),
    {
        if blocks.len() == 0 {
            None
        } else {
            let last = &blocks[blocks.len() - 1];
            Some(Checkpoint { height: last.number, block_hash: copy_bytes(&last.hash) })
        }
    }
}

} // verus!
