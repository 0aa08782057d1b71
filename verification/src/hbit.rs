//! The Bitcoin leg of a swap: its immutable parameters, the events a
//! watcher can observe for it, and the scan of a block for the funding
//! output. Bitcoin has no separate deploy step: a leg moves straight
//! from `NotDeployed` to `Funded`.

use vstd::prelude::*;

use crate::asset;
use crate::bitcoin::PublicKey;
use crate::ledger;
use crate::secret::{Secret, SecretHash};
use crate::state::LedgerEvent;
use crate::types::{byte_vecs_eq, OutPoint, Timestamp, Txid};

verus! {

/// Immutable HTLC parameters of a Bitcoin leg, fixed once both
/// parties' identities are known.
#[derive(Clone, Copy, Debug)]
pub struct Params {
    pub network: ledger::Bitcoin,
    pub asset: asset::Bitcoin,
    pub redeem_identity: PublicKey,
    pub refund_identity: PublicKey,
    pub expiry: Timestamp,
    pub secret_hash: SecretHash,
}

/// The HTLC output holds the agreed amount.
#[derive(Clone, Copy, Debug)]
pub struct Funded {
    pub asset: asset::Bitcoin,
    pub location: OutPoint,
}

/// The HTLC output was spent with the secret.
#[derive(Clone, Copy, Debug)]
pub struct Redeemed {
    pub transaction: Txid,
    pub secret: Secret,
}

/// The HTLC output was reclaimed by its funder.
#[derive(Clone, Copy, Debug)]
pub struct Refunded {
    pub transaction: Txid,
}

/// A transaction output, reduced to what the watcher inspects: the
/// amount it carries and the script that locks it.
#[derive(Clone, Debug)]
pub struct TxOut {
    pub value: u64,
    pub script_pubkey: Vec<u8>,
}

/// A transaction, reduced to its id and outputs.
#[derive(Clone, Debug)]
pub struct Transaction {
    pub txid: Txid,
    pub outputs: Vec<TxOut>,
}

/// A Bitcoin block, reduced to what the watcher and the block cache
/// need: its own hash, its parent's, its height, and its transactions.
#[derive(Clone, Debug)]
pub struct Block {
    pub hash: [u8; 32],
    pub parent: [u8; 32],
    pub height: u32,
    pub transactions: Vec<Transaction>,
}

/// Whether an output pays to the HTLC script.
pub open spec fn spec_output_matches(o: TxOut, script: Seq<u8>) -> bool {
    o.script_pubkey@ == script
}

/// The index of the first output paying to the HTLC script, if any.
pub open spec fn spec_find_output(outputs: Seq<TxOut>, script: Seq<u8>) -> Option<int>
    decreases outputs.len(),
{
    if outputs.len() == 0 {
        None
    } else if spec_output_matches(outputs.first(), script) {
        Some(0)
    } else {
        match spec_find_output(outputs.drop_first(), script) {
            Some(i) => Some(i + 1),
            None => None,
        }
    }
}

/// The first (transaction index, output index) in a block paying to
/// the HTLC script, if any.
pub open spec fn spec_find_funding(txs: Seq<Transaction>, script: Seq<u8>) -> Option<(int, int)>
    decreases txs.len(),
{
    if txs.len() == 0 {
        None
    } else {
        match spec_find_output(txs.first().outputs@, script) {
            Some(vout) => Some((0int, vout)),
            None => match spec_find_funding(txs.drop_first(), script) {
                Some((ti, vout)) => Some((ti + 1, vout)),
                None => None,
            },
        }
    }
}

/// The index of the first output of `tx` paying to the HTLC script.
pub fn find_output(tx: &Transaction, script: &Vec<u8>) -> (r: Option<usize>)
    ensures
        r matches Some(i) ==> spec_find_output(tx.outputs@, script@) == Some(i as int),
        r is None <==> spec_find_output(tx.outputs@, script@) is None,
{
    let n = tx.outputs.len();
    let mut i: usize = 0;
    while i < n
        invariant
            n == tx.outputs@.len(),
            i <= n,
            forall|j: int| 0 <= j < i ==> !spec_output_matches(tx.outputs@[j], script@),
        decreases n - i,
    {
        if byte_vecs_eq(&tx.outputs[i].script_pubkey, script) {
            proof {
                lemma_find_output_at(tx.outputs@, script@, i as int);
            }
            return Some(i);
        }
        i = i + 1;
    }
    proof {
        lemma_find_output_none(tx.outputs@, script@);
    }
    None
}

proof fn lemma_find_output_at(outputs: Seq<TxOut>, script: Seq<u8>, i: int)
    requires
        0 <= i < outputs.len(),
        spec_output_matches(outputs[i], script),
        forall|j: int| 0 <= j < i ==> !spec_output_matches(outputs[j], script),
    ensures
        spec_find_output(outputs, script) == Some(i),
    decreases i,
{
    if i > 0 {
        lemma_find_output_at(outputs.drop_first(), script, i - 1);
    }
}

proof fn lemma_find_output_none(outputs: Seq<TxOut>, script: Seq<u8>)
    requires
        forall|j: int| 0 <= j < outputs.len() ==> !spec_output_matches(outputs[j], script),
    ensures
        spec_find_output(outputs, script) is None,
    decreases outputs.len(),
{
    if outputs.len() > 0 {
        lemma_find_output_none(outputs.drop_first(), script);
    }
}

/// Scans one block for the first output funding the HTLC script, and
/// classifies it against the agreed amount: the resulting event is
/// `correctly` funded exactly when the amounts agree.
pub fn scan_block_for_funding(block: &Block, script: &Vec<u8>, expected: &asset::Bitcoin) -> (r:
    Option<LedgerEvent<OutPoint, Txid>>)
    requires
        forall|t: int|
            0 <= t < block.transactions@.len() ==> #[trigger] block.transactions@[t].outputs@.len()
                <= u32::MAX,
    ensures
        r is Some <==> spec_find_funding(block.transactions@, script@) is Some,
        r matches Some(ev) ==> spec_find_funding(block.transactions@, script@) matches Some(
            (ti, vout),
        ) && ev == (LedgerEvent::Funded {
            htlc_location: OutPoint {
                txid: block.transactions@[ti].txid,
                vout: vout as u32,
            },
            transaction: block.transactions@[ti].txid,
            correctly: block.transactions@[ti].outputs@[vout].value == expected.sats,
        }),
{
    let n = block.transactions.len();
    assert(block.transactions@.skip(0) == block.transactions@);
    let mut t: usize = 0;
    while t < n
        invariant
            n == block.transactions@.len(),
            t <= n,
            forall|j: int|
                0 <= j < n ==> #[trigger] block.transactions@[j].outputs@.len() <= u32::MAX,
            forall|j: int|
                0 <= j < t ==> spec_find_output(
                    #[trigger] block.transactions@[j].outputs@,
                    script@,
                ) is None,
        decreases n - t,
    {
        let tx = &block.transactions[t];
        match find_output(tx, script) {
            Some(vout) => {
                proof {
                    lemma_find_output_in_range(tx.outputs@, script@);
                    lemma_find_funding_at(block.transactions@, script@, t as int);
                }
                let value = tx.outputs[vout].value;
                return Some(
                    LedgerEvent::Funded {
                        htlc_location: OutPoint { txid: tx.txid, vout: vout as u32 },
                        transaction: tx.txid,
                        correctly: value == expected.sats,
                    },
                );
            },
            None => {
                t = t + 1;
            },
        }
    }
    proof {
        lemma_find_funding_none(block.transactions@, script@);
    }
    None
}

proof fn lemma_find_funding_at(txs: Seq<Transaction>, script: Seq<u8>, t: int)
    requires
        0 <= t < txs.len(),
        spec_find_output(txs[t].outputs@, script) is Some,
        forall|j: int| 0 <= j < t ==> spec_find_output(#[trigger] txs[j].outputs@, script) is None,
    ensures
        spec_find_funding(txs, script) == Some(
            (t, spec_find_output(txs[t].outputs@, script)->0),
        ),
    decreases t,
{
    if t > 0 {
        lemma_find_funding_at(txs.drop_first(), script, t - 1);
    }
}

proof fn lemma_find_funding_none(txs: Seq<Transaction>, script: Seq<u8>)
    requires
        forall|j: int|
            0 <= j < txs.len() ==> spec_find_output(#[trigger] txs[j].outputs@, script) is None,
    ensures
        spec_find_funding(txs, script) is None,
    decreases txs.len(),
{
    if txs.len() > 0 {
        lemma_find_funding_none(txs.drop_first(), script);
    }
}

/// The index range a found output is in: the spec-level index is a
/// real index into the outputs.
pub proof fn lemma_find_output_in_range(outputs: Seq<TxOut>, script: Seq<u8>)
    ensures
        spec_find_output(outputs, script) matches Some(i) ==> 0 <= i < outputs.len()
            && spec_output_matches(outputs[i], script),
    decreases outputs.len(),
{
    if outputs.len() > 0 {
        lemma_find_output_in_range(outputs.drop_first(), script);
    }
}

} // verus!
