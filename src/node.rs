//! On-chain outputs as the node reports them, and the chain queries built on them.

use crate::btc::{Address, Sats, Tx, TxId, TxOut};
use vstd::prelude::*;

verus! {

/// One output of a wallet transaction, as the node reports it.
#[derive(Debug, Clone)]
pub struct NodeOutput {
    /// The address paid; empty for an output that pays no address.
    pub address: String,
    pub output_index: i64,
    pub amount: i64,
}

/// A wallet transaction, as the node reports it.
#[derive(Debug, Clone)]
pub struct NodeTransaction {
    pub tx_hash: String,
    /// The block that holds it; 0 while unconfirmed.
    pub block_height: u32,
    pub label: String,
    pub outputs: Vec<NodeOutput>,
}

/// A block range to fetch outputs from: `num_blocks` blocks from `start_height`.
#[derive(Debug, Clone, Copy, PartialEq, Eq, Structural)]
pub struct TransactionsQuery {
    pub start_height: u32,
    pub num_blocks: u32,
}

/// The ledger's view of one reported output.
pub open spec fn output_of(t: NodeTransaction, o: NodeOutput) -> TxOut {
    TxOut {
        tx: Tx {
            id: TxId(t.tx_hash),
            block_height: if t.block_height == 0 { None } else { Some(t.block_height) },
        },
        address: Address(o.address),
        v_out: o.output_index,
        amount: Sats(o.amount),
    }
}

/// The outputs of `t` among `os` that pay an address, in order.
pub open spec fn outputs_of(t: NodeTransaction, os: Seq<NodeOutput>) -> Seq<TxOut>
    decreases os.len(),
{
    if os.len() == 0 {
        Seq::empty()
    } else {
        outputs_of(t, os.drop_last()) + if os.last().address@.len() > 0 {
            seq![output_of(t, os.last())]
        } else {
            Seq::empty()
        }
    }
}

/// Whether a transaction carries the label asked for; any does when none is asked for.
pub open spec fn label_matches(t: NodeTransaction, label: Option<String>) -> bool {
    match label {
        None => true,
        Some(l) => t.label@ == l@,
    }
}

/// The outputs that pay an address, of the transactions that carry the label, in order.
pub open spec fn tx_outs_of(ts: Seq<NodeTransaction>, label: Option<String>) -> Seq<TxOut>
    decreases ts.len(),
{
    if ts.len() == 0 {
        Seq::empty()
    } else {
        tx_outs_of(ts.drop_last(), label) + if label_matches(ts.last(), label) {
            outputs_of(ts.last(), ts.last().outputs@)
        } else {
            Seq::empty()
        }
    }
}

fn output_from(t: &NodeTransaction, o: &NodeOutput) -> (r: TxOut)
    ensures
        r == output_of(*t, *o),
{
    TxOut {
        tx: Tx {
            id: TxId(t.tx_hash.clone()),
            block_height: if t.block_height == 0 { None } else { Some(t.block_height) },
        },
        address: Address(o.address.clone()),
        v_out: o.output_index,
        amount: Sats(o.amount),
    }
}

/// The outputs that the ledger tracks among the node's wallet transactions: those that pay an
/// address, of the transactions with the given label (of all when none is given), in the
/// node's order. A transaction at height 0 is unconfirmed.
pub fn tx_outs_from(transactions: &Vec<NodeTransaction>, label: &Option<String>) -> (r: Vec<TxOut>)
    ensures
        r@ == tx_outs_of(transactions@, *label),
{
    let mut out: Vec<TxOut> = Vec::new();
    let mut i: usize = 0;
    while i < transactions.len()
        invariant
            i <= transactions@.len(),
            out@ == tx_outs_of(transactions@.subrange(0, i as int), *label),
        decreases transactions@.len() - i,
    {
        let t = &transactions[i];
        let wanted = match label {
            None => true,
            Some(l) => t.label == *l,
        };
        let ghost before = out@;
        if wanted {
            let mut j: usize = 0;
            while j < t.outputs.len()
                invariant
                    j <= t.outputs@.len(),
                    out@ == before + outputs_of(*t, t.outputs@.subrange(0, j as int)),
                decreases t.outputs@.len() - j,
            {
                let o = &t.outputs[j];
                let ghost mid = out@;
                if !o.address.as_str().is_empty() {
                    out.push(output_from(t, o));
                }
                proof {
                    let os = t.outputs@.subrange(0, j as int + 1);
                    assert(os.drop_last() =~= t.outputs@.subrange(0, j as int));
                    assert(out@ =~= before + outputs_of(*t, os));
                }
                j = j + 1;
            }
            assert(t.outputs@.subrange(0, t.outputs@.len() as int) =~= t.outputs@);
        }
        proof {
            let ts = transactions@.subrange(0, i as int + 1);
            assert(ts.drop_last() =~= transactions@.subrange(0, i as int));
            assert(out@ =~= tx_outs_of(ts, *label));
        }
        i = i + 1;
    }
    assert(transactions@.subrange(0, transactions@.len() as int) =~= transactions@);
    out
}

/// The highest block among the confirmed outputs, if any is confirmed.
pub open spec fn highest_block_of(s: Seq<TxOut>) -> Option<u32>
    decreases s.len(),
{
    if s.len() == 0 {
        None
    } else {
        match (highest_block_of(s.drop_last()), s.last().tx.block_height) {
            (None, h) => h,
            (h, None) => h,
            (Some(a), Some(b)) => Some(if a >= b { a } else { b }),
        }
    }
}

/// Whether an output is unconfirmed or mined at block `m` or below.
pub open spec fn mined_by(o: TxOut, m: u32) -> bool {
    match o.tx.block_height {
        Some(h) => h <= m,
        None => true,
    }
}

/// The highest block is the block of one confirmed output and at least that of every other;
/// there is none exactly when no output is confirmed.
pub proof fn highest_block_is_max(s: Seq<TxOut>)
    ensures
        highest_block_of(s) is None <==> forall|i: int|
            0 <= i < s.len() ==> (#[trigger] s[i]).tx.block_height is None,
        highest_block_of(s) matches Some(m) ==> (forall|i: int|
            0 <= i < s.len() ==> mined_by(#[trigger] s[i], m)),
        highest_block_of(s) matches Some(m) ==> (exists|i: int|
            0 <= i < s.len() && (#[trigger] s[i]).tx.block_height == Some(m)),
    decreases s.len(),
{
    if s.len() > 0 {
        let t = s.drop_last();
        highest_block_is_max(t);
        assert forall|i: int| 0 <= i < t.len() implies t[i] == s[i] by {}
        if let Some(m) = highest_block_of(t) {
            let w = choose|i: int| 0 <= i < t.len() && (#[trigger] t[i]).tx.block_height == Some(m);
            assert(s[w] == t[w]);
        }
        if let Some(m) = highest_block_of(s) {
            assert forall|i: int| 0 <= i < s.len() implies mined_by(#[trigger] s[i], m) by {
                if i < t.len() {
                    assert(s[i] == t[i]);
                }
            }
            if s.last().tx.block_height == Some(m) {
                assert(s[s.len() - 1].tx.block_height == Some(m));
            }
        } else {
            assert forall|i: int| 0 <= i < s.len() implies (#[trigger] s[i]).tx.block_height is None by {
                if i < t.len() {
                    assert(s[i] == t[i]);
                }
            }
        }
    }
}

/// The highest block among the confirmed outputs, if any is confirmed.
pub fn highest_block(tx_outs: &Vec<TxOut>) -> (r: Option<u32>)
    ensures
        r == highest_block_of(tx_outs@),
{
    let mut best: Option<u32> = None;
    let mut i: usize = 0;
    while i < tx_outs.len()
        invariant
            i <= tx_outs@.len(),
            best == highest_block_of(tx_outs@.subrange(0, i as int)),
        decreases tx_outs@.len() - i,
    {
        let h = tx_outs[i].tx.block_height;
        best = match (best, h) {
            (None, h) => h,
            (b, None) => b,
            (Some(a), Some(b)) => Some(if a >= b { a } else { b }),
        };
        proof {
            let s = tx_outs@.subrange(0, i as int + 1);
            assert(s.drop_last() =~= tx_outs@.subrange(0, i as int));
        }
        i = i + 1;
    }
    assert(tx_outs@.subrange(0, tx_outs@.len() as int) =~= tx_outs@);
    best
}

/// The last block of a query's range, which the node counts inclusively.
pub fn end_height(query: TransactionsQuery) -> (r: u32)
    requires
        query.num_blocks >= 1,
        query.start_height + query.num_blocks - 1 <= u32::MAX,
    ensures
        r == query.start_height + query.num_blocks - 1,
{
    query.start_height + (query.num_blocks - 1)
}

/// Whether the confirmed outputs of a query fall short of its last block, so that the range
/// reaches past the chain's tip and unconfirmed outputs must be fetched too.
pub fn needs_unconfirmed(query: TransactionsQuery, confirmed: &Vec<TxOut>) -> (r: bool)
    requires
        query.num_blocks >= 1,
        query.start_height + query.num_blocks - 1 <= u32::MAX,
    ensures
        r == (match highest_block_of(confirmed@) {
            None => 0,
            Some(h) => h,
        } < query.start_height + query.num_blocks - 1),
{
    let highest = match highest_block(confirmed) {
        None => 0,
        Some(h) => h,
    };
    highest < end_height(query)
}

/// Where the chain listener resumes after a batch of outputs: the block after the highest
/// confirmed one. `None` when none is confirmed (or the highest is the last representable
/// block): the cycle then ends.
pub fn next_chain_tip(tx_outs: &Vec<TxOut>) -> (r: Option<u32>)
    ensures
        r == (match highest_block_of(tx_outs@) {
            Some(h) if h < u32::MAX => Some((h + 1) as u32),
            _ => None,
        }),
{
    match highest_block(tx_outs) {
        Some(h) => {
            if h < u32::MAX {
                Some(h + 1)
            } else {
                None
            }
        },
        None => None,
    }
}

/// The listener resumes past every confirmed output of a batch, so it never walks a block
/// twice; it stops only when no output of the batch is confirmed (or the last block is reached).
pub proof fn next_tip_passes_batch(s: Seq<TxOut>)
    ensures
        match highest_block_of(s) {
            Some(m) => forall|i: int| 0 <= i < s.len() ==> mined_by(#[trigger] s[i], m),
            None => forall|i: int| 0 <= i < s.len() ==> (#[trigger] s[i]).tx.block_height is None,
        },
{
    highest_block_is_max(s);
}

/// Whether an output pays `address` exactly `amount`.
pub open spec fn pays(o: TxOut, address: Address, amount: Sats) -> bool {
    o.address.0@ == address.0@ && o.amount == amount
}

/// The first output that pays `address` exactly `amount`: how a withdrawal that was already
/// broadcast is found again among the outputs labelled with its id.
pub fn find_payment(tx_outs: &Vec<TxOut>, address: &Address, amount: Sats) -> (r: Option<TxOut>)
    ensures
        r matches Some(o) ==> exists|i: int|
            0 <= i < tx_outs@.len() && tx_outs@[i] == o && pays(o, *address, amount) && forall|
                j: int,
            | 0 <= j < i ==> !pays(#[trigger] tx_outs@[j], *address, amount),
        r.is_none() ==> forall|i: int|
            0 <= i < tx_outs@.len() ==> !pays(#[trigger] tx_outs@[i], *address, amount),
{
    let mut i: usize = 0;
    while i < tx_outs.len()
        invariant
            i <= tx_outs@.len(),
            forall|j: int| 0 <= j < i ==> !pays(#[trigger] tx_outs@[j], *address, amount),
        decreases tx_outs@.len() - i,
    {
        let o = &tx_outs[i];
        if o.address.0 == address.0 && o.amount.0 == amount.0 {
            return Some(o.copy());
        }
        i = i + 1;
    }
    None
}

/// Whether an output belongs to transaction `id` and pays `address`.
pub open spec fn sent_by(o: TxOut, id: TxId, address: Address) -> bool {
    o.tx.id.0@ == id.0@ && o.address.0@ == address.0@
}

/// The first output of transaction `id` that pays `address`: the output of a broadcast.
pub fn find_sent(tx_outs: &Vec<TxOut>, id: &TxId, address: &Address) -> (r: Option<TxOut>)
    ensures
        r matches Some(o) ==> exists|i: int|
            0 <= i < tx_outs@.len() && tx_outs@[i] == o && sent_by(o, *id, *address) && forall|
                j: int,
            | 0 <= j < i ==> !sent_by(#[trigger] tx_outs@[j], *id, *address),
        r.is_none() ==> forall|i: int|
            0 <= i < tx_outs@.len() ==> !sent_by(#[trigger] tx_outs@[i], *id, *address),
{
    let mut i: usize = 0;
    while i < tx_outs.len()
        invariant
            i <= tx_outs@.len(),
            forall|j: int| 0 <= j < i ==> !sent_by(#[trigger] tx_outs@[j], *id, *address),
        decreases tx_outs@.len() - i,
    {
        let o = &tx_outs[i];
        if o.tx.id.0 == id.0 && o.address.0 == address.0 {
            return Some(o.copy());
        }
        i = i + 1;
    }
    None
}

} // verus!
