//! The funding transactions of outgoing contracts.

use crate::chain::{OutPoint, SecretKey, Transaction};
use crate::error::MakerError;
use crate::maker::swapcoin::{outgoing_models, OutgoingModel, OutgoingSwapCoin};
use crate::primitives::{compute_txid, derive_public_key, public_key_of, txid_of};
use crate::protocol::common_messages::ProtocolVersion;
use crate::protocol::error::ProtocolError;
use crate::protocol::legacy_messages::NextHopInfo;
use vstd::prelude::*;

verus! {

/// The one funding transaction and the position of its payment, from what the
/// wallet made for one address.
pub fn single_funding(txs: Vec<Transaction>, positions: &Vec<u32>) -> (r: Result<
    (Transaction, u32),
    MakerError,
>)
    ensures
        r == if txs@.len() == 0 {
            Err::<(Transaction, u32), MakerError>(MakerError::General("No funding tx created"))
        } else {
            Ok(
                (
                    txs@[0],
                    if positions@.len() > 0 {
                        positions@[0]
                    } else {
                        0
                    },
                ),
            )
        },
{
    let position: u32 = if positions.len() > 0 {
        positions[0]
    } else {
        0
    };
    let mut txs = txs;
    if txs.len() == 0 {
        return Err(MakerError::General("No funding tx created"));
    }
    Ok((txs.remove(0), position))
}

/// The output that an outgoing contract spends, and its amount.
#[derive(Debug, Clone, Copy)]
pub struct FundedOutput {
    /// The output.
    pub outpoint: OutPoint,
    /// Its amount in satoshis.
    pub amount: u64,
}

/// How many contracts are made: one for each funding transaction that has a
/// position and keys.
pub open spec fn contract_count(txs: nat, positions: nat, keys: nat, hashlock_keys: nat) -> nat {
    let first = if txs < positions {
        txs
    } else {
        positions
    };
    let second = if keys < hashlock_keys {
        keys
    } else {
        hashlock_keys
    };
    if first < second {
        first
    } else {
        second
    }
}

/// The outputs that the outgoing contracts of a swap spend, in order.
/// `positions` are those of the payments in the funding transactions, `keys`
/// and `hashlock_keys` the numbers of the next party's keys.
pub fn funded_outputs(
    txs: &Vec<Transaction>,
    positions: &Vec<u32>,
    keys: usize,
    hashlock_keys: usize,
) -> (r: Vec<FundedOutput>)
    requires
        forall|i: int|
            0 <= i < txs@.len() && i < positions@.len() ==> (#[trigger] positions@[i])
                < txs@[i].output@.len(),
    ensures
        r@.len() == contract_count(
            txs@.len(),
            positions@.len(),
            keys as nat,
            hashlock_keys as nat,
        ),
        forall|i: int|
            0 <= i < r@.len() ==> (#[trigger] r@[i]) == (FundedOutput {
                outpoint: OutPoint { txid: txid_of(txs@[i]@), vout: positions@[i] },
                amount: txs@[i].output@[positions@[i] as int].value,
            }),
{
    let mut out: Vec<FundedOutput> = Vec::new();
    let mut i: usize = 0;
    while i < txs.len() && i < positions.len() && i < keys && i < hashlock_keys
        invariant
            i <= txs.len(),
            i <= positions.len(),
            i <= keys,
            i <= hashlock_keys,
            out@.len() == i,
            forall|k: int|
                0 <= k < txs@.len() && k < positions@.len() ==> (#[trigger] positions@[k])
                    < txs@[k].output@.len(),
            forall|k: int|
                0 <= k < i ==> (#[trigger] out@[k]) == (FundedOutput {
                    outpoint: OutPoint { txid: txid_of(txs@[k]@), vout: positions@[k] },
                    amount: txs@[k].output@[positions@[k] as int].value,
                }),
        decreases txs.len() - i,
    {
        let vout: u32 = positions[i];
        let amount: u64 = txs[i].output[vout as usize].value;
        out.push(
            FundedOutput { outpoint: OutPoint { txid: compute_txid(&txs[i]), vout }, amount },
        );
        i += 1;
    }
    out
}

/// What the maker makes for a contract of the next hop.
#[derive(Debug)]
pub struct NextHopContract {
    /// The maker's key of the two-key script.
    pub my_privkey: SecretKey,
    /// The key that spends after the timeout.
    pub timelock_privkey: SecretKey,
    /// The script of the maker's and the next party's keys.
    pub multisig_redeemscript: Vec<u8>,
    /// The script of the contract.
    pub contract_redeemscript: Vec<u8>,
    /// The contract transaction, which spends the funded output.
    pub contract_tx: Result<Transaction, ProtocolError>,
}

/// The coin of a contract of the next hop, or what stands against it.
pub open spec fn outgoing_coin(
    output: FundedOutput,
    contract: NextHopContract,
    next: NextHopInfo,
    locktime: u16,
) -> Result<OutgoingModel, MakerError> {
    match contract.contract_tx {
        Err(e) => Err(MakerError::Protocol(e)),
        Ok(contract_tx) => match public_key_of(contract.my_privkey) {
            None => Err(MakerError::Secp),
            Some(pubkey) => Ok(
                OutgoingModel {
                    protocol: ProtocolVersion::Legacy,
                    swap_id: None,
                    my_privkey: Some(contract.my_privkey),
                    my_pubkey: Some(pubkey),
                    other_pubkey: Some(next.next_multisig_pubkey),
                    contract_tx: contract_tx@,
                    contract_vout: 0,
                    funding_tx: None,
                    multisig_redeemscript: Some(contract.multisig_redeemscript@),
                    contract_redeemscript: Some(contract.contract_redeemscript@),
                    timelock_privkey: contract.timelock_privkey,
                    timelock: Some(locktime as u32),
                    funding_amount: output.amount,
                    others_contract_sig: None,
                    hashlock_script: None,
                    timelock_script: None,
                    internal_key: None,
                    tap_tweak: None,
                },
            ),
        },
    }
}

/// Builds the coin of a contract of the next hop.
fn build_outgoing_coin(
    output: &FundedOutput,
    contract: NextHopContract,
    next: &NextHopInfo,
    locktime: u16,
) -> (r: Result<OutgoingSwapCoin, MakerError>)
    ensures
        match (r, outgoing_coin(*output, contract, *next, locktime)) {
            (Ok(coin), Ok(model)) => coin@ == model,
            (Err(e), Err(expected)) => e == expected,
            _ => false,
        },
{
    let contract_tx = match contract.contract_tx {
        Err(e) => {
            return Err(MakerError::Protocol(e));
        },
        Ok(tx) => tx,
    };
    let my_pubkey = match derive_public_key(&contract.my_privkey) {
        None => {
            return Err(MakerError::Secp);
        },
        Some(key) => key,
    };
    Ok(
        OutgoingSwapCoin {
            protocol: ProtocolVersion::Legacy,
            swap_id: None,
            my_privkey: Some(contract.my_privkey),
            my_pubkey: Some(my_pubkey),
            other_pubkey: Some(next.next_multisig_pubkey),
            contract_tx,
            contract_vout: 0,
            funding_tx: None,
            multisig_redeemscript: Some(contract.multisig_redeemscript),
            contract_redeemscript: Some(contract.contract_redeemscript),
            timelock_privkey: contract.timelock_privkey,
            timelock: Some(locktime as u32),
            funding_amount: output.amount,
            others_contract_sig: None,
            hashlock_script: None,
            timelock_script: None,
            internal_key: None,
            tap_tweak: None,
        },
    )
}

/// The coins of the first `n` contracts of the next hop, or what stands
/// against the first of them that cannot be built.
pub open spec fn outgoing_coins(
    outputs: Seq<FundedOutput>,
    contracts: Seq<NextHopContract>,
    next: Seq<NextHopInfo>,
    locktime: u16,
    n: int,
) -> Result<Seq<OutgoingModel>, MakerError>
    decreases n,
{
    if n <= 0 {
        Ok(seq![])
    } else {
        match outgoing_coins(outputs, contracts, next, locktime, n - 1) {
            Err(e) => Err(e),
            Ok(coins) => match outgoing_coin(
                outputs[n - 1],
                contracts[n - 1],
                next[n - 1],
                locktime,
            ) {
                Err(e) => Err(e),
                Ok(coin) => Ok(coins.push(coin)),
            },
        }
    }
}

proof fn lemma_first_bad_outgoing(
    outputs: Seq<FundedOutput>,
    contracts: Seq<NextHopContract>,
    next: Seq<NextHopInfo>,
    locktime: u16,
    k: int,
    n: int,
)
    requires
        0 <= k <= n,
        outgoing_coins(outputs, contracts, next, locktime, k) is Err,
    ensures
        outgoing_coins(outputs, contracts, next, locktime, n) == outgoing_coins(
            outputs,
            contracts,
            next,
            locktime,
            k,
        ),
    decreases n - k,
{
    if k < n {
        lemma_first_bad_outgoing(outputs, contracts, next, locktime, k, n - 1);
    }
}

/// Makes the coins of the next hop's contracts from the outputs that were
/// funded for them.
#[verifier::loop_isolation(false)]
pub fn initialize_openswap(
    outputs: &Vec<FundedOutput>,
    contracts: Vec<NextHopContract>,
    next: &Vec<NextHopInfo>,
    locktime: u16,
) -> (r: Result<Vec<OutgoingSwapCoin>, MakerError>)
    requires
        contracts@.len() == outputs@.len(),
        outputs@.len() <= next@.len(),
    ensures
        match (
            r,
            outgoing_coins(outputs@, contracts@, next@, locktime, outputs@.len() as int),
        ) {
            (Ok(coins), Ok(models)) => outgoing_models(coins@) == models,
            (Err(e), Err(expected)) => e == expected,
            _ => false,
        },
{
    let ghost all = contracts@;
    let ghost n = outputs@.len() as int;
    let mut remaining = contracts;
    let mut coins: Vec<OutgoingSwapCoin> = Vec::new();
    let mut i: usize = 0;
    assert(all.subrange(0, n) =~= all);
    assert(outgoing_models(coins@) =~= seq![]);
    while i < outputs.len()
        invariant
            i <= n,
            remaining@ == all.subrange(i as int, n),
            outgoing_coins(outputs@, all, next@, locktime, i as int) == Ok::<
                Seq<OutgoingModel>,
                MakerError,
            >(outgoing_models(coins@)),
        decreases n - i,
    {
        let contract = remaining.remove(0);
        assert(contract == all[i as int]);
        assert(remaining@ =~= all.subrange(i + 1, n));
        proof {
            if outgoing_coins(outputs@, all, next@, locktime, i + 1) is Err {
                lemma_first_bad_outgoing(outputs@, all, next@, locktime, i + 1, n);
            }
        }
        let ghost before = coins@;
        match build_outgoing_coin(&outputs[i], contract, &next[i], locktime) {
            Err(e) => {
                return Err(e);
            },
            Ok(coin) => {
                coins.push(coin);
                assert(outgoing_models(coins@) =~= outgoing_models(before).push(coin@));
            },
        }
        i += 1;
    }
    Ok(coins)
}

/// An outgoing coin can be spent by the maker and the next party together: its
/// own key is that of its secret key, the other one the next party's. It is
/// worth what its funding output holds, and can be taken back after the lock
/// time with the contract's timelock key.
pub proof fn law_outgoing_coin_belongs_to_both(
    output: FundedOutput,
    contract: NextHopContract,
    next: NextHopInfo,
    locktime: u16,
)
    requires
        outgoing_coin(output, contract, next, locktime) is Ok,
    ensures
        ({
            let coin = outgoing_coin(output, contract, next, locktime)->Ok_0;
            &&& coin.my_privkey == Some(contract.my_privkey)
            &&& coin.my_pubkey is Some
            &&& public_key_of(coin.my_privkey->0) == coin.my_pubkey
            &&& coin.other_pubkey == Some(next.next_multisig_pubkey)
            &&& coin.timelock_privkey == contract.timelock_privkey
            &&& coin.timelock is Some && coin.timelock->0 == locktime
            &&& coin.funding_amount == output.amount
            &&& contract.contract_tx is Ok && coin.contract_tx == contract.contract_tx->Ok_0@
            &&& coin.contract_redeemscript == Some(contract.contract_redeemscript@)
            &&& coin.multisig_redeemscript == Some(contract.multisig_redeemscript@)
            &&& coin.protocol == ProtocolVersion::Legacy
            &&& coin.others_contract_sig is None
        }),
{
}

/// Every funded output becomes one outgoing coin, made with the contract and
/// the keys at its own position.
pub proof fn law_every_funded_output_becomes_a_coin(
    outputs: Seq<FundedOutput>,
    contracts: Seq<NextHopContract>,
    next: Seq<NextHopInfo>,
    locktime: u16,
    n: int,
)
    requires
        0 <= n <= outputs.len(),
        outgoing_coins(outputs, contracts, next, locktime, n) is Ok,
    ensures
        ({
            let coins = outgoing_coins(outputs, contracts, next, locktime, n)->Ok_0;
            &&& coins.len() == n
            &&& forall|i: int|
                0 <= i < n ==> {
                    let coin = #[trigger] coins[i];
                    &&& coin.my_privkey == Some(contracts[i].my_privkey)
                    &&& coin.other_pubkey == Some(next[i].next_multisig_pubkey)
                    &&& coin.funding_amount == outputs[i].amount
                    &&& coin.timelock_privkey == contracts[i].timelock_privkey
                    &&& coin.timelock == Some(locktime as u32)
                }
        }),
    decreases n,
{
    if n > 0 {
        law_every_funded_output_becomes_a_coin(outputs, contracts, next, locktime, n - 1);
        law_outgoing_coin_belongs_to_both(
            outputs[n - 1],
            contracts[n - 1],
            next[n - 1],
            locktime,
        );
    }
}

/// A contract is made only where there is a funding transaction, a position and
/// both keys for it, and wherever there is.
pub proof fn law_contracts_have_all_they_need(
    txs: nat,
    positions: nat,
    keys: nat,
    hashlock_keys: nat,
    i: nat,
)
    ensures
        i < contract_count(txs, positions, keys, hashlock_keys) <==> i < txs && i < positions && i
            < keys && i < hashlock_keys,
{
}

} // verus!
