//! The chain event processor: consumes notifications one at a time, runs the
//! payloads of each committed block in order, and emits checkpoints.

use vstd::prelude::*;

use crate::address::Address;
use crate::chain::{
    checkpoint_for, checkpoint_view, heights_ascending, notification_wf, Block, ChainNotification,
    Checkpoint,
};
use crate::extract::{block_payloads, extract, payload_views, ExecutionPayload, PayloadView};
use crate::sandbox::{execute, outcome_fits, SandboxOutcome};

verus! {

/// The payloads of the first `n` blocks of `blocks`, block after block.
pub open spec fn chain_payloads(blocks: Seq<Block>, registry: Seq<u8>, n: int) -> Seq<PayloadView>
    decreases n,
{
    if n <= 0 {
        seq![]
    } else {
        chain_payloads(blocks, registry, n - 1) + block_payloads(blocks[n - 1], registry)
    }
}

/// The payloads that handling `n` runs, in order: those of the committed
/// blocks, and none for a reorganisation or a revert.
pub open spec fn notification_payloads(n: ChainNotification, registry: Seq<u8>) -> Seq<PayloadView> {
    match n {
        ChainNotification::Committed { new } => chain_payloads(new@, registry, new@.len() as int),
        _ => seq![],
    }
}

/// What handling one notification did: the payloads it ran, in order, the
/// outcome of each, and the checkpoint it emitted.
pub struct ProcessReport {
    pub executed: Vec<ExecutionPayload>,
    pub outcomes: Vec<SandboxOutcome>,
    pub checkpoint: Option<Checkpoint>,
}

/// Consumes chain notifications and runs the registry's payloads.
pub struct ChainEventProcessor {
    /// Only logs that this address emitted are run.
    pub registry: Address,
    /// The last checkpoint emitted, or the one resumed from.
    pub checkpoint: Option<Checkpoint>,
}

proof fn lemma_views_append(a: Seq<ExecutionPayload>, b: Seq<ExecutionPayload>)
    ensures
        payload_views(a + b) == payload_views(a) + payload_views(b),
{
    assert(payload_views(a + b) =~= payload_views(a) + payload_views(b));
}

/// Runs the payloads of `blocks`, block after block, each block's in order.
fn run_blocks(blocks: &Vec<Block>, registry: &Address) -> (r: (
    Vec<ExecutionPayload>,
    Vec<SandboxOutcome>,
))
    ensures
        payload_views(r.0@) == chain_payloads(blocks@, registry@, blocks@.len() as int),
        r.1@.len() == r.0@.len(),
        forall|i: int| 0 <= i < r.1@.len() ==> outcome_fits(#[trigger] r.0@[i].code@, r.1@[i]),
{
    let mut executed: Vec<ExecutionPayload> = Vec::new();
    let mut outcomes: Vec<SandboxOutcome> = Vec::new();
    let mut k: usize = 0;
    assert(payload_views(executed@) =~= seq![]);
    while k < blocks.len()
        invariant
            k <= blocks.len(),
            payload_views(executed@) == chain_payloads(blocks@, registry@, k as int),
            outcomes@.len() == executed@.len(),
            forall|m: int|
                0 <= m < outcomes@.len() ==> outcome_fits(#[trigger] executed@[m].code@, outcomes@[m]),
        decreases blocks.len() - k,
    {
        let mut payloads = extract(&blocks[k], registry);
        let mut i: usize = 0;
        while i < payloads.len()
            invariant
                i <= payloads.len(),
                outcomes@.len() == executed@.len() + i,
                forall|m: int|
                    0 <= m < executed@.len() ==> outcome_fits(
                        #[trigger] executed@[m].code@,
                        outcomes@[m],
                    ),
                forall|m: int|
                    0 <= m < i ==> outcome_fits(
                        #[trigger] payloads@[m].code@,
                        outcomes@[executed@.len() + m],
                    ),
            decreases payloads.len() - i,
        {
            let outcome = execute(payloads[i].code.as_slice());
            outcomes.push(outcome);
            i = i + 1;
        }
        proof {
            lemma_views_append(executed@, payloads@);
        }
        let ghost before = executed@;
        let ghost added = payloads@;
        executed.append(&mut payloads);
        assert forall|m: int| 0 <= m < outcomes@.len() implies outcome_fits(
            #[trigger] executed@[m].code@,
            outcomes@[m],
        ) by {
            if m >= before.len() {
                assert(executed@[m] == added[m - before.len()]);
            } else {
                assert(executed@[m] == before[m]);
            }
        }
        k = k + 1;
    }
    (executed, outcomes)
}

/// The checkpoint emitted for a well-formed committed range stands at the
/// range's tip: the height of its last block, which no block of the range
/// exceeds, and that block's hash.
pub proof fn lemma_checkpoint_at_tip(new: Vec<Block>)
    requires
        notification_wf(ChainNotification::Committed { new }),
    ensures
        checkpoint_for(ChainNotification::Committed { new }) == Some(
            (new@.last().number, new@.last().hash@),
        ),
        forall|i: int| 0 <= i < new@.len() ==> #[trigger] new@[i].number <= new@.last().number,
{
    assert forall|i: int| 0 <= i < new@.len() implies #[trigger] new@[i].number
        <= new@.last().number by {
        if i < new@.len() - 1 {
            assert(heights_ascending(new@));
        }
    }
}

/// The payloads that a processor runs for a notification depend on the
/// notification and the registry alone, not on the checkpoint it holds: a
/// processor resumed from a persisted checkpoint derives the same payloads,
/// in the same order, as the one that handled the notification before.
pub proof fn lemma_replay_derives_same_work(
    resumed: ChainEventProcessor,
    earlier: ChainEventProcessor,
    n: ChainNotification,
)
    requires
        resumed.registry@ == earlier.registry@,
    ensures
        notification_payloads(n, resumed.registry@) == notification_payloads(
            n,
            earlier.registry@,
        ),
{
}

/// A reorganisation runs no payload, of the abandoned blocks or of the new
/// ones, and emits no checkpoint.
pub proof fn lemma_reorg_runs_nothing(old: Vec<Block>, new: Vec<Block>, registry: Seq<u8>)
    ensures
        notification_payloads(ChainNotification::Reorged { old, new }, registry) == Seq::<
            PayloadView,
        >::empty(),
        checkpoint_for(ChainNotification::Reorged { old, new }) is None,
{
}

impl ChainEventProcessor {
    /// A processor that has emitted no checkpoint yet.
    pub fn new(registry: Address) -> (r: Self)
        ensures
            r.registry == registry,
            r.checkpoint is None,
    {
        ChainEventProcessor { registry, checkpoint: None }
    }

    /// A processor resuming from a persisted checkpoint.
    pub fn resume(registry: Address, checkpoint: Option<Checkpoint>) -> (r: Self)
        ensures
            r.registry == registry,
            r.checkpoint == checkpoint,
    {
        ChainEventProcessor { registry, checkpoint }
    }

    /// Handles one notification. For a committed range, runs the payloads
    /// of its blocks in order of height, and of receipt and log within a
    /// block, whatever their outcomes, then emits the checkpoint at the
    /// range's tip. A reorganisation or a revert runs nothing, undoes
    /// nothing and emits no checkpoint.
    pub fn process(&mut self, n: &ChainNotification) -> (r: ProcessReport)
        ensures
            final(self).registry == old(self).registry,
            payload_views(r.executed@) == notification_payloads(*n, old(self).registry@),
            r.outcomes@.len() == r.executed@.len(),
            forall|i: int|
                0 <= i < r.outcomes@.len() ==> outcome_fits(
                    #[trigger] r.executed@[i].code@,
                    r.outcomes@[i],
                ),
            checkpoint_view(r.checkpoint) == checkpoint_for(*n),
            checkpoint_view(final(self).checkpoint) == if r.checkpoint is Some {
                checkpoint_for(*n)
            } else {
                checkpoint_view(old(self).checkpoint)
            },
    {
        match n {
            ChainNotification::Committed { new } => {
                let (executed, outcomes) = run_blocks(new, &self.registry);
                let checkpoint = Checkpoint::at_tip(new);
                let report = ProcessReport {
                    executed,
                    outcomes,
                    checkpoint: match &checkpoint {
                        Some(c) => Some(c.duplicate()),
                        None => None,
                    },
                };
                if checkpoint.is_some() {
                    self.checkpoint = checkpoint;
                }
                report
            },
            _ => {
                let report = ProcessReport {
                    executed: Vec::new(),
                    outcomes: Vec::new(),
                    checkpoint: None,
                };
                assert(payload_views(report.executed@) =~= seq![]);
                report
            },
        }
    }
}

} // verus!
