//! The outputs that a watchtower is asked to watch.

use crate::chain::{copy_bytes, OutPoint, Transaction, TransactionModel};
use crate::maker::swapcoin::{
    incoming_models, outgoing_models, tx_models, IncomingModel, IncomingSwapCoin, OutgoingModel,
    OutgoingSwapCoin,
};
use crate::primitives::{compute_txid, txid_of};
use vstd::prelude::*;

verus! {

/// A request to watch an output.
#[derive(Debug)]
pub struct WatchRequest {
    /// The output.
    pub outpoint: OutPoint,
    /// The script that guards it.
    pub script_pubkey: Vec<u8>,
}

impl View for WatchRequest {
    type V = (OutPoint, Seq<u8>);

    open spec fn view(&self) -> (OutPoint, Seq<u8>) {
        (self.outpoint, self.script_pubkey@)
    }
}

/// What a list of requests holds.
pub open spec fn watch_models(items: Seq<WatchRequest>) -> Seq<(OutPoint, Seq<u8>)> {
    items.map_values(|item: WatchRequest| item@)
}

/// Every output of a transaction, with its script.
pub open spec fn watches_of(tx: TransactionModel) -> Seq<(OutPoint, Seq<u8>)> {
    Seq::new(
        tx.output.len(),
        |i: int| (OutPoint { txid: txid_of(tx), vout: i as u32 }, tx.output[i].script_pubkey),
    )
}

/// Every output of a transaction.
pub open spec fn outputs_of(tx: TransactionModel) -> Seq<OutPoint> {
    Seq::new(tx.output.len(), |i: int| OutPoint { txid: txid_of(tx), vout: i as u32 })
}

/// Every output of the contract transactions of incoming coins.
pub open spec fn incoming_watches(coins: Seq<IncomingModel>) -> Seq<(OutPoint, Seq<u8>)>
    decreases coins.len(),
{
    if coins.len() == 0 {
        seq![]
    } else {
        incoming_watches(coins.drop_last()) + watches_of(coins.last().contract_tx)
    }
}

/// Every output of the contract transactions of outgoing coins.
pub open spec fn outgoing_watches(coins: Seq<OutgoingModel>) -> Seq<(OutPoint, Seq<u8>)>
    decreases coins.len(),
{
    if coins.len() == 0 {
        seq![]
    } else {
        outgoing_watches(coins.drop_last()) + watches_of(coins.last().contract_tx)
    }
}

/// Every output of a list of transactions.
pub open spec fn outputs_of_all(txs: Seq<TransactionModel>) -> Seq<OutPoint>
    decreases txs.len(),
{
    if txs.len() == 0 {
        seq![]
    } else {
        outputs_of_all(txs.drop_last()) + outputs_of(txs.last())
    }
}

/// Adds every output of a transaction to a list of requests.
pub fn push_watches(out: &mut Vec<WatchRequest>, tx: &Transaction)
    ensures
        watch_models(final(out)@) == watch_models(old(out)@) + watches_of(tx@),
{
    let ghost before = out@;
    let txid = compute_txid(tx);
    let mut i: usize = 0;
    while i < tx.output.len()
        invariant
            i <= tx.output.len(),
            txid == txid_of(tx@),
            watch_models(out@) == watch_models(before) + watches_of(tx@).subrange(0, i as int),
        decreases tx.output.len() - i,
    {
        let request = WatchRequest {
            outpoint: OutPoint { txid, vout: i as u32 },
            script_pubkey: copy_bytes(tx.output[i].script_pubkey.as_slice()),
        };
        let ghost old_out = out@;
        proof {
            assert(request@ == watches_of(tx@)[i as int]);
        }
        out.push(request);
        i += 1;
        proof {
            assert(watch_models(out@) =~= watch_models(old_out).push(request@));
            assert(watch_models(out@) =~= watch_models(before) + watches_of(tx@).subrange(
                0,
                i as int,
            ));
        }
    }
    assert(watches_of(tx@).subrange(0, i as int) =~= watches_of(tx@));
    assert(watch_models(before) + watches_of(tx@) == watch_models(out@));
}

/// The outputs of the contract transactions of incoming coins.
pub fn watch_incoming(coins: &Vec<IncomingSwapCoin>) -> (r: Vec<WatchRequest>)
    ensures
        watch_models(r@) == incoming_watches(incoming_models(coins@)),
{
    let mut out: Vec<WatchRequest> = Vec::new();
    let mut i: usize = 0;
    let ghost models = incoming_models(coins@);
    assert(watch_models(out@) =~= incoming_watches(models.subrange(0, 0)));
    while i < coins.len()
        invariant
            i <= coins.len(),
            models == incoming_models(coins@),
            watch_models(out@) == incoming_watches(models.subrange(0, i as int)),
        decreases coins.len() - i,
    {
        proof {
            let next = models.subrange(0, i + 1);
            assert(next.drop_last() =~= models.subrange(0, i as int));
            assert(next.last() == coins@[i as int]@);
        }
        push_watches(&mut out, &coins[i].contract_tx);
        i += 1;
    }
    assert(models.subrange(0, i as int) =~= models);
    out
}

/// The outputs of the contract transactions of outgoing coins.
pub fn watch_outgoing(coins: &Vec<OutgoingSwapCoin>) -> (r: Vec<WatchRequest>)
    ensures
        watch_models(r@) == outgoing_watches(outgoing_models(coins@)),
{
    let mut out: Vec<WatchRequest> = Vec::new();
    let mut i: usize = 0;
    let ghost models = outgoing_models(coins@);
    assert(watch_models(out@) =~= outgoing_watches(models.subrange(0, 0)));
    while i < coins.len()
        invariant
            i <= coins.len(),
            models == outgoing_models(coins@),
            watch_models(out@) == outgoing_watches(models.subrange(0, i as int)),
        decreases coins.len() - i,
    {
        proof {
            let next = models.subrange(0, i + 1);
            assert(next.drop_last() =~= models.subrange(0, i as int));
            assert(next.last() == coins@[i as int]@);
        }
        push_watches(&mut out, &coins[i].contract_tx);
        i += 1;
    }
    assert(models.subrange(0, i as int) =~= models);
    out
}

/// Every output of a list of transactions.
pub fn all_outputs(txs: &Vec<Transaction>) -> (r: Vec<OutPoint>)
    ensures
        r@ == outputs_of_all(tx_models(txs@)),
{
    let mut out: Vec<OutPoint> = Vec::new();
    let mut i: usize = 0;
    let ghost models = tx_models(txs@);
    assert(out@ =~= outputs_of_all(models.subrange(0, 0)));
    while i < txs.len()
        invariant
            i <= txs.len(),
            models == tx_models(txs@),
            out@ == outputs_of_all(models.subrange(0, i as int)),
        decreases txs.len() - i,
    {
        let ghost before = out@;
        let tx = &txs[i];
        let txid = compute_txid(tx);
        proof {
            let next = models.subrange(0, i + 1);
            assert(next.drop_last() =~= models.subrange(0, i as int));
            assert(next.last() == tx@);
        }
        let mut k: usize = 0;
        while k < tx.output.len()
            invariant
                k <= tx.output.len(),
                txid == txid_of(tx@),
                out@ == before + outputs_of(tx@).subrange(0, k as int),
            decreases tx.output.len() - k,
        {
            out.push(OutPoint { txid, vout: k as u32 });
            k += 1;
            assert(out@ =~= before + outputs_of(tx@).subrange(0, k as int));
        }
        assert(outputs_of(tx@).subrange(0, k as int) =~= outputs_of(tx@));
        i += 1;
    }
    assert(models.subrange(0, i as int) =~= models);
    out
}

/// An output of a transaction.
pub open spec fn output_at(tx: TransactionModel, v: int) -> OutPoint {
    OutPoint { txid: txid_of(tx), vout: v as u32 }
}

/// Every output of every transaction of a list is among its outputs.
pub proof fn law_every_output_is_listed(txs: Seq<TransactionModel>, t: int, v: int)
    requires
        0 <= t < txs.len(),
        0 <= v < txs[t].output.len(),
    ensures
        outputs_of_all(txs).contains(OutPoint { txid: txid_of(txs[t]), vout: v as u32 }),
    decreases txs.len(),
{
    let point = output_at(txs[t], v);
    let earlier = outputs_of_all(txs.drop_last());
    let all = outputs_of_all(txs);
    assert(all == earlier + outputs_of(txs.last()));
    if t < txs.len() - 1 {
        assert(txs.drop_last()[t] == txs[t]);
        law_every_output_is_listed(txs.drop_last(), t, v);
        let i = choose|i: int| 0 <= i < earlier.len() && earlier[i] == point;
        assert(all[i] == point);
    } else {
        assert(outputs_of(txs.last())[v] == point);
        assert(all[earlier.len() + v] == point);
    }
}

/// Every output of the contract transaction of every outgoing coin is watched,
/// with the script that guards it.
pub proof fn law_outgoing_contracts_are_watched(coins: Seq<OutgoingModel>, c: int, v: int)
    requires
        0 <= c < coins.len(),
        0 <= v < coins[c].contract_tx.output.len(),
    ensures
        outgoing_watches(coins).contains(
            (
                OutPoint { txid: txid_of(coins[c].contract_tx), vout: v as u32 },
                coins[c].contract_tx.output[v].script_pubkey,
            ),
        ),
    decreases coins.len(),
{
    let watch = (output_at(coins[c].contract_tx, v), coins[c].contract_tx.output[v].script_pubkey);
    let earlier = outgoing_watches(coins.drop_last());
    let all = outgoing_watches(coins);
    assert(all == earlier + watches_of(coins.last().contract_tx));
    if c < coins.len() - 1 {
        assert(coins.drop_last()[c] == coins[c]);
        law_outgoing_contracts_are_watched(coins.drop_last(), c, v);
        let i = choose|i: int| 0 <= i < earlier.len() && earlier[i] == watch;
        assert(all[i] == watch);
    } else {
        assert(watches_of(coins.last().contract_tx)[v] == watch);
        assert(all[earlier.len() + v] == watch);
    }
}

/// Every output of the contract transaction of every incoming coin is watched,
/// with the script that guards it.
pub proof fn law_incoming_contracts_are_watched(coins: Seq<IncomingModel>, c: int, v: int)
    requires
        0 <= c < coins.len(),
        0 <= v < coins[c].contract_tx.output.len(),
    ensures
        incoming_watches(coins).contains(
            (
                OutPoint { txid: txid_of(coins[c].contract_tx), vout: v as u32 },
                coins[c].contract_tx.output[v].script_pubkey,
            ),
        ),
    decreases coins.len(),
{
    let watch = (output_at(coins[c].contract_tx, v), coins[c].contract_tx.output[v].script_pubkey);
    let earlier = incoming_watches(coins.drop_last());
    let all = incoming_watches(coins);
    assert(all == earlier + watches_of(coins.last().contract_tx));
    if c < coins.len() - 1 {
        assert(coins.drop_last()[c] == coins[c]);
        law_incoming_contracts_are_watched(coins.drop_last(), c, v);
        let i = choose|i: int| 0 <= i < earlier.len() && earlier[i] == watch;
        assert(all[i] == watch);
    } else {
        assert(watches_of(coins.last().contract_tx)[v] == watch);
        assert(all[earlier.len() + v] == watch);
    }
}

} // verus!
