//! Turns the registry's log entries of a block into execution payloads.

use vstd::prelude::*;

use crate::address::Address;
use crate::chain::{copy_bytes, Block, LogEntry, Receipt};

verus! {

/// A request to run the module carried by a log entry.
pub struct ExecutionRequestEvent {
    pub code: Vec<u8>,
}

impl ExecutionRequestEvent {
    /// Takes the log's data verbatim as the module's bytes.
    pub fn decode_raw_log(log: &LogEntry) -> (r: Self)
        ensures
            r.code@ == log.data@,
    {
        ExecutionRequestEvent { code: copy_bytes(&log.data) }
    }
}

/// A module to run, with the place of the log entry it came from.
pub struct ExecutionPayload {
    pub origin_block_height: u64,
    pub origin_receipt_index: usize,
    pub origin_log_index: usize,
    pub code: Vec<u8>,
}

pub struct PayloadView {
    pub height: u64,
    pub receipt_index: int,
    pub log_index: int,
    pub code: Seq<u8>,
}

impl View for ExecutionPayload {
    type V = PayloadView;

    open spec fn view(&self) -> PayloadView {
        PayloadView {
            height: self.origin_block_height,
            receipt_index: self.origin_receipt_index as int,
            log_index: self.origin_log_index as int,
            code: self.code@,
        }
    }
}

pub open spec fn payload_views(v: Seq<ExecutionPayload>) -> Seq<PayloadView> {
    v.map_values(|p: ExecutionPayload| p@)
}

/// The payloads of the first `n` logs of receipt `ri` of the block at
/// `height`: one for each log that `registry` emitted, in emission order.
pub open spec fn log_payloads(
    height: u64,
    ri: int,
    logs: Seq<LogEntry>,
    registry: Seq<u8>,
    n: int,
) -> Seq<PayloadView>
    decreases n,
{
    if n <= 0 {
        seq![]
    } else {
        let before = log_payloads(height, ri, logs, registry, n - 1);
        if logs[n - 1].address@ == registry {
            before.push(
                PayloadView { height, receipt_index: ri, log_index: n - 1, code: logs[n - 1].data@ },
            )
        } else {
            before
        }
    }
}

/// The payloads of the first `n` receipts of `block`, receipt after receipt.
pub open spec fn receipts_payloads(block: Block, registry: Seq<u8>, n: int) -> Seq<PayloadView>
    decreases n,
{
    if n <= 0 {
        seq![]
    } else {
        let logs = block.receipts@[n - 1].logs@;
        receipts_payloads(block, registry, n - 1) + log_payloads(
            block.number,
            n - 1,
            logs,
            registry,
            logs.len() as int,
        )
    }
}

/// The payloads of a block, in receipt order and, within a receipt, in log
/// order; logs of other addresses than `registry` give none.
pub open spec fn block_payloads(block: Block, registry: Seq<u8>) -> Seq<PayloadView> {
    receipts_payloads(block, registry, block.receipts@.len() as int)
}

/// The payload `p` was taken from a log entry of `block` that `registry`
/// emitted, and carries that entry's data.
pub open spec fn from_registry_log(block: Block, registry: Seq<u8>, p: PayloadView) -> bool {
    &&& p.height == block.number
    &&& 0 <= p.receipt_index < block.receipts@.len()
    &&& 0 <= p.log_index < block.receipts@[p.receipt_index].logs@.len()
    &&& block.receipts@[p.receipt_index].logs@[p.log_index].address@ == registry
    &&& p.code == block.receipts@[p.receipt_index].logs@[p.log_index].data@
}

/// `p` comes before `q` in (receipt index, log index) order.
pub open spec fn precedes(p: PayloadView, q: PayloadView) -> bool {
    p.receipt_index < q.receipt_index || (p.receipt_index == q.receipt_index && p.log_index
        < q.log_index)
}

proof fn lemma_log_payloads(height: u64, ri: int, logs: Seq<LogEntry>, registry: Seq<u8>, n: int)
    requires
        0 <= n <= logs.len(),
    ensures
        forall|i: int|
            0 <= i < log_payloads(height, ri, logs, registry, n).len() ==> {
                let p = #[trigger] log_payloads(height, ri, logs, registry, n)[i];
                &&& p.height == height
                &&& p.receipt_index == ri
                &&& 0 <= p.log_index < n
                &&& logs[p.log_index].address@ == registry
                &&& p.code == logs[p.log_index].data@
            },
        forall|i: int, j: int|
            0 <= i < j < log_payloads(height, ri, logs, registry, n).len() ==> (
            #[trigger] log_payloads(height, ri, logs, registry, n)[i]).log_index < (
            #[trigger] log_payloads(height, ri, logs, registry, n)[j]).log_index,
    decreases n,
{
    if n > 0 {
        lemma_log_payloads(height, ri, logs, registry, n - 1);
        let a = log_payloads(height, ri, logs, registry, n - 1);
        let ps = log_payloads(height, ri, logs, registry, n);
        if logs[n - 1].address@ == registry {
            assert forall|i: int| 0 <= i < ps.len() implies {
                let p = #[trigger] ps[i];
                &&& p.height == height
                &&& p.receipt_index == ri
                &&& 0 <= p.log_index < n
                &&& logs[p.log_index].address@ == registry
                &&& p.code == logs[p.log_index].data@
            } by {
                if i < a.len() {
                    assert(ps[i] == a[i]);
                }
            }
            assert forall|i: int, j: int| 0 <= i < j < ps.len() implies (#[trigger] ps[i]).log_index
                < (#[trigger] ps[j]).log_index by {
                assert(ps[i] == a[i]);
                if j < a.len() {
                    assert(ps[j] == a[j]);
                }
            }
        }
    }
}

proof fn lemma_receipts_payloads(block: Block, registry: Seq<u8>, n: int)
    requires
        0 <= n <= block.receipts@.len(),
    ensures
        forall|i: int|
            0 <= i < receipts_payloads(block, registry, n).len() ==> {
                let p = #[trigger] receipts_payloads(block, registry, n)[i];
                from_registry_log(block, registry, p) && p.receipt_index < n
            },
        forall|i: int, j: int|
            0 <= i < j < receipts_payloads(block, registry, n).len() ==> precedes(
                #[trigger] receipts_payloads(block, registry, n)[i],
                #[trigger] receipts_payloads(block, registry, n)[j],
            ),
    decreases n,
{
    if n > 0 {
        lemma_receipts_payloads(block, registry, n - 1);
        let logs = block.receipts@[n - 1].logs@;
        lemma_log_payloads(block.number, n - 1, logs, registry, logs.len() as int);
        let a = receipts_payloads(block, registry, n - 1);
        let b = log_payloads(block.number, n - 1, logs, registry, logs.len() as int);
        let ps = receipts_payloads(block, registry, n);
        assert(ps == a + b);
        assert forall|i: int| 0 <= i < ps.len() implies {
            let p = #[trigger] ps[i];
            from_registry_log(block, registry, p) && p.receipt_index < n
        } by {
            if i >= a.len() {
                assert(ps[i] == b[i - a.len()]);
            } else {
                assert(ps[i] == a[i]);
            }
        }
        assert forall|i: int, j: int| 0 <= i < j < ps.len() implies precedes(
            #[trigger] ps[i],
            #[trigger] ps[j],
        ) by {
            if j < a.len() {
                assert(ps[i] == a[i] && ps[j] == a[j]);
            } else if i < a.len() {
                assert(ps[i] == a[i] && ps[j] == b[j - a.len()]);
            } else {
                assert(ps[i] == b[i - a.len()] && ps[j] == b[j - a.len()]);
            }
        }
    }
}

/// Extraction keeps only the registry's log entries, each with its data as
/// the payload's code, and yields them in strictly ascending (receipt index,
/// log index) order.
pub proof fn lemma_extraction_order(block: Block, registry: Seq<u8>)
    ensures
        forall|i: int|
            0 <= i < block_payloads(block, registry).len() ==> from_registry_log(
                block,
                registry,
                #[trigger] block_payloads(block, registry)[i],
            ),
        forall|i: int, j: int|
            0 <= i < j < block_payloads(block, registry).len() ==> precedes(
                #[trigger] block_payloads(block, registry)[i],
                #[trigger] block_payloads(block, registry)[j],
            ),
{
    lemma_receipts_payloads(block, registry, block.receipts@.len() as int);
}

proof fn lemma_push_view(v: Seq<ExecutionPayload>, p: ExecutionPayload)
    ensures
        payload_views(v.push(p)) == payload_views(v).push(p@),
{
    assert(payload_views(v.push(p)) =~= payload_views(v).push(p@));
}

/// Appends the payloads of `receipt`, number `ri` of the block at `height`.
fn extract_receipt(
    height: u64,
    ri: usize,
    receipt: &Receipt,
    registry: &Address,
    out: &mut Vec<ExecutionPayload>,
)
    ensures
        payload_views(final(out)@) == payload_views(old(out)@) + log_payloads(
            height,
            ri as int,
            receipt.logs@,
            registry@,
            receipt.logs@.len() as int,
        ),
{
    let ghost start = payload_views(out@);
    let mut j: usize = 0;
    while j < receipt.logs.len()
        invariant
            j <= receipt.logs.len(),
            payload_views(out@) == start + log_payloads(
                height,
                ri as int,
                receipt.logs@,
                registry@,
                j as int,
            ),
        decreases receipt.logs.len() - j,
    {
        let log = &receipt.logs[j];
        if log.address.same_as(registry) {
            let event = ExecutionRequestEvent::decode_raw_log(log);
            let p = ExecutionPayload {
                origin_block_height: height,
                origin_receipt_index: ri,
                origin_log_index: j,
                code: event.code,
            };
            proof {
                lemma_push_view(out@, p);
            }
            out.push(p);
        }
        j = j + 1;
        proof {
            let lp = log_payloads(height, ri as int, receipt.logs@, registry@, j as int);
            assert(payload_views(out@) =~= start + lp);
        }
    }
}

/// Appends the payloads of `block` to `out`.
pub fn extract_into(block: &Block, registry: &Address, out: &mut Vec<ExecutionPayload>)
    ensures
        payload_views(final(out)@) == payload_views(old(out)@) + block_payloads(*block, registry@),
{
    let ghost start = payload_views(out@);
    let mut i: usize = 0;
    while i < block.receipts.len()
        invariant
            i <= block.receipts.len(),
            payload_views(out@) == start + receipts_payloads(*block, registry@, i as int),
        decreases block.receipts.len() - i,
    {
        extract_receipt(block.number, i, &block.receipts[i], registry, out);
        i = i + 1;
        assert(payload_views(out@) =~= start + receipts_payloads(*block, registry@, i as int));
    }
}

/// The payloads of `block`: one for each log entry that `registry` emitted,
/// in receipt order and, within a receipt, in emission order.
pub fn extract(block: &Block, registry: &Address) -> (r: Vec<ExecutionPayload>)
    ensures
        payload_views(r@) == block_payloads(*block, registry@),
{
    let mut out: Vec<ExecutionPayload> = Vec::new();
    assert(payload_views(out@) =~= seq![]);
    extract_into(block, registry, &mut out);
    assert(payload_views(out@) =~= block_payloads(*block, registry@));
    out
}

} // verus!
