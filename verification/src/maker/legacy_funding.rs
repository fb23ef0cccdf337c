//! Processing a taker's proof of funding: taking over the incoming coins,
//! settling the fees, and answering with the contracts of the next hop.

use crate::chain::{
    copy_bytes, first_output_for, key_equal, lemma_first_output_for, Hash160, PublicKey, SecretKey,
    Transaction, TransactionModel,
};
use crate::error::MakerError;
use crate::maker::handlers::{
    phase_verdict, swap_id_verdict, ConnectionState, StateModel, SwapPhase,
};
use crate::maker::swapcoin::{
    bytes_model, incoming_models, outgoing_models, tx_models, IncomingModel, IncomingSwapCoin,
    OutgoingModel, OutgoingSwapCoin,
};
use crate::maker::watches::{all_outputs, law_every_output_is_listed, output_at, outputs_of_all};
use crate::primitives::{
    add_to_secret, derive_public_key, p2wsh_bytes, public_key_of, redeemscript_to_scriptpubkey,
    tweaked_secret,
};
use crate::protocol::common_messages::ProtocolVersion;
use crate::protocol::error::ProtocolError;
use crate::protocol::legacy_messages::{
    FundingTxInfo, NextHopInfo, ProofOfFunding, ReqContractSigsAsRecvrAndSender,
    SenderContractTxInfo,
};
use vstd::prelude::*;

verus! {

/// The position of the funding output in a funding transaction.
pub open spec fn funding_index(info: FundingTxInfo) -> Result<u32, MakerError> {
    match first_output_for(info.funding_tx.output@, p2wsh_bytes(info.multisig_redeemscript@)) {
        Some(i) => Ok(i as u32),
        None => Err(
            MakerError::General("Funding output doesn't match with multisig redeem script"),
        ),
    }
}

/// Find the index of the funding output in the funding transaction: the first
/// output that pays to the two-key script.
pub fn find_funding_output_index(info: &FundingTxInfo) -> (r: Result<u32, MakerError>)
    ensures
        r == funding_index(*info),
{
    let script = redeemscript_to_scriptpubkey(info.multisig_redeemscript.as_slice());
    match info.funding_tx.output_position(script.as_slice()) {
        Some(i) => Ok(i as u32),
        None => Err(
            MakerError::General("Funding output doesn't match with multisig redeem script"),
        ),
    }
}

/// The amount of the funding output.
pub open spec fn funding_value(info: FundingTxInfo) -> Result<u64, MakerError> {
    match funding_index(info) {
        Err(e) => Err(e),
        Ok(i) => if i < info.funding_tx.output@.len() {
            Ok(info.funding_tx.output@[i as int].value)
        } else {
            Err(MakerError::General("Funding output not found"))
        },
    }
}

/// The amount of the funding output.
pub fn read_funding_value(info: &FundingTxInfo) -> (r: Result<u64, MakerError>)
    ensures
        r == funding_value(*info),
{
    match find_funding_output_index(info) {
        Err(e) => Err(e),
        Ok(i) => if (i as usize) < info.funding_tx.output.len() {
            Ok(info.funding_tx.output[i as usize].value)
        } else {
            Err(MakerError::General("Funding output not found"))
        },
    }
}

/// The amounts of the first `n` funding outputs, in all.
pub open spec fn declared_incoming(infos: Seq<FundingTxInfo>, n: int) -> Result<u64, MakerError>
    decreases n,
{
    if n <= 0 {
        Ok(0)
    } else {
        match declared_incoming(infos, n - 1) {
            Err(e) => Err(e),
            Ok(total) => match funding_value(infos[n - 1]) {
                Err(e) => Err(e),
                Ok(value) => if total + value > u64::MAX {
                    Err(MakerError::General("Funding output amounts overflow"))
                } else {
                    Ok((total + value) as u64)
                },
            },
        }
    }
}

/// Once an amount cannot be added, neither can the whole sum.
proof fn lemma_first_failure(infos: Seq<FundingTxInfo>, k: int, n: int)
    requires
        0 <= k <= n,
        declared_incoming(infos, k) is Err,
    ensures
        declared_incoming(infos, n) == declared_incoming(infos, k),
    decreases n - k,
{
    if k < n {
        lemma_first_failure(infos, k, n - 1);
    }
}

/// What a proof of funding is rejected for before its funding is looked up,
/// or the amount that it declares. A taker may change neither the lock time
/// nor the number of contracts, nor fund more than was agreed.
pub open spec fn funding_terms_verdict(state: StateModel, pof: ProofOfFunding) -> Result<
    u64,
    MakerError,
> {
    if phase_verdict(
        state.phase,
        SwapPhase::AwaitingContractData,
        SwapPhase::AwaitingSignaturesOrPreimage,
    ) is Err {
        Err(MakerError::UnexpectedPhase(state.phase))
    } else if swap_id_verdict(state.swap_id, pof.id@) is Err {
        Err(MakerError::SwapIdMismatch)
    } else if pof.refund_locktime != state.timelock {
        Err(
            MakerError::General(
                "ProofOfFunding refund locktime does not match the negotiated timelock",
            ),
        )
    } else if pof.confirmed_funding_txes@.len() != state.tx_count {
        Err(
            MakerError::General("ProofOfFunding tx count does not match the negotiated tx count"),
        )
    } else {
        match declared_incoming(
            pof.confirmed_funding_txes@,
            pof.confirmed_funding_txes@.len() as int,
        ) {
            Err(e) => Err(e),
            Ok(declared) => if declared > state.swap_amount {
                Err(
                    MakerError::General(
                        "ProofOfFunding incoming amount exceeds the negotiated swap amount",
                    ),
                )
            } else {
                Ok(declared)
            },
        }
    }
}

/// Checks a proof of funding against the agreed terms and returns the amount
/// that its funding outputs hold.
pub fn check_funding_terms(state: &ConnectionState, pof: &ProofOfFunding) -> (r: Result<
    u64,
    MakerError,
>)
    ensures
        r == funding_terms_verdict(state@, *pof),
{
    match state.expect_phase(
        SwapPhase::AwaitingContractData,
        SwapPhase::AwaitingSignaturesOrPreimage,
    ) {
        Err(e) => {
            return Err(e);
        },
        Ok(_) => {},
    }
    match state.check_swap_id(pof.id.as_str()) {
        Err(e) => {
            return Err(e);
        },
        Ok(_) => {},
    }
    if pof.refund_locktime as u32 != state.timelock {
        return Err(
            MakerError::General(
                "ProofOfFunding refund locktime does not match the negotiated timelock",
            ),
        );
    }
    if pof.confirmed_funding_txes.len() as u64 != state.tx_count as u64 {
        return Err(
            MakerError::General("ProofOfFunding tx count does not match the negotiated tx count"),
        );
    }
    let ghost infos = pof.confirmed_funding_txes@;
    let ghost n = infos.len() as int;
    let mut declared: u64 = 0;
    let mut i: usize = 0;
    while i < pof.confirmed_funding_txes.len()
        invariant
            infos == pof.confirmed_funding_txes@,
            n == infos.len(),
            i <= n,
            declared_incoming(infos, i as int) == Ok::<u64, MakerError>(declared),
            forall|e: MakerError|
                declared_incoming(infos, n) == Err::<u64, MakerError>(e)
                    ==> #[trigger] funding_terms_verdict(state@, *pof) == Err::<u64, MakerError>(e),
        decreases n - i,
    {
        proof {
            if declared_incoming(infos, i + 1) is Err {
                lemma_first_failure(infos, i + 1, n);
            }
        }
        match read_funding_value(&pof.confirmed_funding_txes[i]) {
            Err(e) => {
                return Err(e);
            },
            Ok(value) => match declared.checked_add(value) {
                Some(sum) => {
                    declared = sum;
                },
                None => {
                    return Err(MakerError::General("Funding output amounts overflow"));
                },
            },
        }
        i += 1;
    }
    if declared > state.swap_amount {
        return Err(
            MakerError::General(
                "ProofOfFunding incoming amount exceeds the negotiated swap amount",
            ),
        );
    }
    Ok(declared)
}

/// The sum of the first `n` funding outputs' amounts.
pub open spec fn funding_sum(infos: Seq<FundingTxInfo>, n: int) -> int
    decreases n,
{
    if n <= 0 {
        0
    } else {
        funding_sum(infos, n - 1) + funding_value(infos[n - 1])->Ok_0
    }
}

/// A proof of funding that meets the agreed terms declares exactly the sum of
/// its funding outputs, which is no more than the agreed amount, in the agreed
/// number of contracts and for the agreed lock time.
pub proof fn law_accepted_funding_terms(state: StateModel, pof: ProofOfFunding)
    requires
        funding_terms_verdict(state, pof) is Ok,
    ensures
        funding_terms_verdict(state, pof)->Ok_0 == funding_sum(
            pof.confirmed_funding_txes@,
            pof.confirmed_funding_txes@.len() as int,
        ),
        funding_terms_verdict(state, pof)->Ok_0 <= state.swap_amount,
        pof.confirmed_funding_txes@.len() == state.tx_count,
        pof.refund_locktime == state.timelock,
        state.swap_id == Some(pof.id@),
{
    lemma_declared_sum(pof.confirmed_funding_txes@, pof.confirmed_funding_txes@.len() as int);
}

/// Amounts that can be added are.
proof fn lemma_declared_sum(infos: Seq<FundingTxInfo>, n: int)
    requires
        0 <= n,
        declared_incoming(infos, n) is Ok,
    ensures
        declared_incoming(infos, n)->Ok_0 == funding_sum(infos, n),
    decreases n,
{
    if n > 0 {
        lemma_declared_sum(infos, n - 1);
    }
}

/// What the contract scripts say of an incoming coin.
#[derive(Debug)]
pub struct IncomingContract {
    /// The two keys of the funding output.
    pub pubkeys: Result<(PublicKey, PublicKey), ProtocolError>,
    /// The contract transaction that spends the funding output.
    pub contract_tx: Result<Transaction, ProtocolError>,
}

/// The coin that a funding transaction gives the maker.
pub open spec fn incoming_coin(
    id: Seq<char>,
    info: FundingTxInfo,
    contract: IncomingContract,
    tweakable_privkey: SecretKey,
    hashvalue: Hash160,
) -> Result<IncomingModel, MakerError> {
    match contract.pubkeys {
        Err(e) => Err(MakerError::Protocol(e)),
        Ok((first, second)) => match funding_value(info) {
            Err(e) => Err(e),
            Ok(amount) => {
                let privkey = tweaked_secret(tweakable_privkey, info.multisig_nonce);
                let pubkey = if privkey is Some {
                    public_key_of(privkey->0)
                } else {
                    None
                };
                let hashlock = tweaked_secret(tweakable_privkey, info.hashlock_nonce);
                if pubkey is None || hashlock is None {
                    Err(MakerError::Secp)
                } else {
                    match contract.contract_tx {
                        Err(e) => Err(MakerError::Protocol(e)),
                        Ok(contract_tx) => Ok(
                            IncomingModel {
                                protocol: ProtocolVersion::Legacy,
                                swap_id: Some(id),
                                my_privkey: privkey,
                                my_pubkey: pubkey,
                                other_pubkey: if pubkey->0 == first {
                                    Some(second)
                                } else {
                                    Some(first)
                                },
                                other_privkey: None,
                                contract_tx: contract_tx@,
                                multisig_redeemscript: Some(info.multisig_redeemscript@),
                                contract_redeemscript: Some(info.contract_redeemscript@),
                                hashvalue: Some(hashvalue),
                                hashlock_privkey: hashlock->0,
                                funding_amount: amount,
                                others_contract_sig: None,
                                hash_preimage: None,
                                hashlock_script: None,
                                timelock_script: None,
                                internal_key: None,
                                tap_tweak: None,
                            },
                        ),
                    }
                }
            },
        },
    }
}

/// Builds the coin that a funding transaction gives the maker. The maker's key
/// is its tweakable key plus the nonce; the other key of the two is the other
/// party's.
pub fn build_incoming_coin(
    id: &String,
    info: &FundingTxInfo,
    contract: IncomingContract,
    tweakable_privkey: &SecretKey,
    hashvalue: Hash160,
) -> (r: Result<IncomingSwapCoin, MakerError>)
    ensures
        match (r, incoming_coin(id@, *info, contract, *tweakable_privkey, hashvalue)) {
            (Ok(coin), Ok(model)) => coin@ == model,
            (Err(e), Err(expected)) => e == expected,
            _ => false,
        },
{
    let (first, second) = match contract.pubkeys {
        Err(e) => {
            return Err(MakerError::Protocol(e));
        },
        Ok(keys) => keys,
    };
    let amount: u64 = match read_funding_value(info) {
        Err(e) => {
            return Err(e);
        },
        Ok(amount) => amount,
    };
    let my_privkey = match add_to_secret(tweakable_privkey, &info.multisig_nonce) {
        None => {
            return Err(MakerError::Secp);
        },
        Some(key) => key,
    };
    let my_pubkey = match derive_public_key(&my_privkey) {
        None => {
            return Err(MakerError::Secp);
        },
        Some(key) => key,
    };
    let other_pubkey = if key_equal(&my_pubkey, &first) {
        second
    } else {
        first
    };
    let hashlock_privkey = match add_to_secret(tweakable_privkey, &info.hashlock_nonce) {
        None => {
            return Err(MakerError::Secp);
        },
        Some(key) => key,
    };
    let contract_tx = match contract.contract_tx {
        Err(e) => {
            return Err(MakerError::Protocol(e));
        },
        Ok(tx) => tx,
    };
    Ok(
        IncomingSwapCoin {
            protocol: ProtocolVersion::Legacy,
            swap_id: Some(id.clone()),
            my_privkey: Some(my_privkey),
            my_pubkey: Some(my_pubkey),
            other_pubkey: Some(other_pubkey),
            other_privkey: None,
            contract_tx,
            multisig_redeemscript: Some(copy_bytes(info.multisig_redeemscript.as_slice())),
            contract_redeemscript: Some(copy_bytes(info.contract_redeemscript.as_slice())),
            hashvalue: Some(hashvalue),
            hashlock_privkey,
            funding_amount: amount,
            others_contract_sig: None,
            hash_preimage: None,
            hashlock_script: None,
            timelock_script: None,
            internal_key: None,
            tap_tweak: None,
        },
    )
}

/// The coins that the first `n` funding transactions give the maker.
pub open spec fn incoming_coins(
    id: Seq<char>,
    infos: Seq<FundingTxInfo>,
    contracts: Seq<IncomingContract>,
    tweakable_privkey: SecretKey,
    hashvalue: Hash160,
    n: int,
) -> Result<Seq<IncomingModel>, MakerError>
    decreases n,
{
    if n <= 0 {
        Ok(seq![])
    } else {
        match incoming_coins(id, infos, contracts, tweakable_privkey, hashvalue, n - 1) {
            Err(e) => Err(e),
            Ok(coins) => match incoming_coin(
                id,
                infos[n - 1],
                contracts[n - 1],
                tweakable_privkey,
                hashvalue,
            ) {
                Err(e) => Err(e),
                Ok(coin) => Ok(coins.push(coin)),
            },
        }
    }
}

/// Once a coin cannot be built, neither can the whole list.
proof fn lemma_first_bad_coin(
    id: Seq<char>,
    infos: Seq<FundingTxInfo>,
    contracts: Seq<IncomingContract>,
    tweakable_privkey: SecretKey,
    hashvalue: Hash160,
    k: int,
    n: int,
)
    requires
        0 <= k <= n,
        incoming_coins(id, infos, contracts, tweakable_privkey, hashvalue, k) is Err,
    ensures
        incoming_coins(id, infos, contracts, tweakable_privkey, hashvalue, n) == incoming_coins(
            id,
            infos,
            contracts,
            tweakable_privkey,
            hashvalue,
            k,
        ),
    decreases n - k,
{
    if k < n {
        lemma_first_bad_coin(id, infos, contracts, tweakable_privkey, hashvalue, k, n - 1);
    }
}

/// Takes over the incoming coins of a verified proof of funding. The fee rate
/// of the next hop's contracts is taken over even where a coin cannot be built.
#[verifier::loop_isolation(false)]
pub fn take_incoming_coins(
    state: &mut ConnectionState,
    pof: &ProofOfFunding,
    contracts: Vec<IncomingContract>,
    tweakable_privkey: &SecretKey,
    hashvalue: Hash160,
) -> (r: Result<(), MakerError>)
    requires
        contracts@.len() == pof.confirmed_funding_txes@.len(),
    ensures
        match incoming_coins(
            pof.id@,
            pof.confirmed_funding_txes@,
            contracts@,
            *tweakable_privkey,
            hashvalue,
            pof.confirmed_funding_txes@.len() as int,
        ) {
            Ok(coins) => r == Ok::<(), MakerError>(()) && final(state)@ == (StateModel {
                contract_feerate: pof.contract_feerate,
                incoming_swapcoins: coins,
                ..old(state)@
            }),
            Err(e) => r == Err::<(), MakerError>(e) && final(state)@ == (StateModel {
                contract_feerate: pof.contract_feerate,
                ..old(state)@
            }),
        },
{
    state.contract_feerate = pof.contract_feerate;
    let ghost infos = pof.confirmed_funding_txes@;
    let ghost n = infos.len() as int;
    let ghost all = contracts@;
    let mut remaining = contracts;
    let mut coins: Vec<IncomingSwapCoin> = Vec::new();
    let mut i: usize = 0;
    assert(all.subrange(0, n) =~= all);
    assert(incoming_models(coins@) =~= seq![]);
    while i < pof.confirmed_funding_txes.len()
        invariant
            i <= n,
            n == infos.len(),
            infos == pof.confirmed_funding_txes@,
            all.len() == n,
            remaining@ == all.subrange(i as int, n),
            incoming_coins(pof.id@, infos, all, *tweakable_privkey, hashvalue, i as int) == Ok::<
                Seq<IncomingModel>,
                MakerError,
            >(incoming_models(coins@)),
        decreases n - i,
    {
        let contract = remaining.remove(0);
        proof {
            assert(contract == all[i as int]);
            assert(remaining@ =~= all.subrange(i + 1, n));
            if incoming_coins(
                pof.id@,
                infos,
                all,
                *tweakable_privkey,
                hashvalue,
                i + 1,
            ) is Err {
                lemma_first_bad_coin(
                    pof.id@,
                    infos,
                    all,
                    *tweakable_privkey,
                    hashvalue,
                    i + 1,
                    n,
                );
            }
        }
        let ghost before = coins@;
        match build_incoming_coin(
            &pof.id,
            &pof.confirmed_funding_txes[i],
            contract,
            tweakable_privkey,
            hashvalue,
        ) {
            Err(e) => {
                return Err(e);
            },
            Ok(coin) => {
                coins.push(coin);
                assert(incoming_models(coins@) =~= incoming_models(before).push(coin@));
            },
        }
        i += 1;
    }
    state.incoming_swapcoins = coins;
    Ok(())
}

/// What is left of the incoming amount after the fees.
pub open spec fn amount_after_fees(incoming: u64, swap_fee: u64, mining_fee: u64) -> Result<
    u64,
    MakerError,
> {
    if incoming < swap_fee + mining_fee {
        Err(MakerError::General("Swap fee exceeds incoming amount"))
    } else {
        Ok((incoming - swap_fee - mining_fee) as u64)
    }
}

/// What is left of the incoming amount after the maker's fee and the mining
/// fee.
pub fn outgoing_amount(incoming: u64, swap_fee: u64, mining_fee: u64) -> (r: Result<
    u64,
    MakerError,
>)
    ensures
        r == amount_after_fees(incoming, swap_fee, mining_fee),
{
    match incoming.checked_sub(swap_fee) {
        None => Err(MakerError::General("Swap fee exceeds incoming amount")),
        Some(rest) => match rest.checked_sub(mining_fee) {
            None => Err(MakerError::General("Swap fee exceeds incoming amount")),
            Some(amount) => Ok(amount),
        },
    }
}

/// How often the outgoing funding is built at most until its mining fee is
/// the one that the outgoing amount was reduced by.
pub const MAX_FEE_ROUNDS: u32 = 3;

/// A round of building the outgoing funding.
#[derive(Debug, Clone, Copy, PartialEq, Eq, Structural)]
pub struct FeeRound {
    /// Which round this is, from one.
    pub round: u32,
    /// The mining fee that the amount was reduced by.
    pub mining_fee: u64,
    /// The amount to fund.
    pub amount: u64,
}

/// Records the maker's fee and works out the amount of the first round.
/// `funding_fee` is the estimated mining fee of a funding transaction.
pub fn begin_fee_rounds(
    state: &mut ConnectionState,
    incoming: u64,
    swap_fee: u64,
    funding_fee: u64,
    next_hops: usize,
) -> (r: Result<FeeRound, MakerError>)
    requires
        funding_fee * next_hops <= u64::MAX,
    ensures
        final(state)@ == (StateModel { service_fee_sats: swap_fee, ..old(state)@ }),
        match amount_after_fees(incoming, swap_fee, (funding_fee * next_hops) as u64) {
            Err(e) => r == Err::<FeeRound, MakerError>(e),
            Ok(amount) => r == Ok::<FeeRound, MakerError>(
                FeeRound { round: 1, mining_fee: (funding_fee * next_hops) as u64, amount },
            ),
        },
{
    state.service_fee_sats = swap_fee;
    let mining_fee: u64 = funding_fee * next_hops as u64;
    match outgoing_amount(incoming, swap_fee, mining_fee) {
        Err(e) => Err(e),
        Ok(amount) => Ok(FeeRound { round: 1, mining_fee, amount }),
    }
}

/// What a round comes to once the funding is built. `actual` is the mining fee
/// that the taker reimburses for the funding transactions' inputs; `None` as
/// the next round means that the funding is settled.
pub open spec fn settled_round(
    round: FeeRound,
    incoming: u64,
    swap_fee: u64,
    actual: u64,
) -> Result<Option<FeeRound>, MakerError> {
    if actual == round.mining_fee {
        Ok(None)
    } else if round.round >= MAX_FEE_ROUNDS {
        Err(MakerError::General("Maker funding fee did not converge within input limit"))
    } else {
        match amount_after_fees(incoming, swap_fee, actual) {
            Err(e) => Err(e),
            Ok(amount) => Ok(
                Some(FeeRound { round: (round.round + 1) as u32, mining_fee: actual, amount }),
            ),
        }
    }
}

/// Decides whether the funding of a round stands or is built again with its
/// actual mining fee.
pub fn settle_fee_round(round: FeeRound, incoming: u64, swap_fee: u64, actual: u64) -> (r: Result<
    Option<FeeRound>,
    MakerError,
>)
    ensures
        r == settled_round(round, incoming, swap_fee, actual),
{
    if actual == round.mining_fee {
        return Ok(None);
    }
    if round.round >= MAX_FEE_ROUNDS {
        return Err(MakerError::General("Maker funding fee did not converge within input limit"));
    }
    match outgoing_amount(incoming, swap_fee, actual) {
        Err(e) => Err(e),
        Ok(amount) => Ok(Some(FeeRound { round: round.round + 1, mining_fee: actual, amount })),
    }
}

/// Whether a round belongs to an incoming amount and a fee: what it funds and
/// both fees make up the incoming amount.
pub open spec fn balanced_round(round: FeeRound, incoming: u64, swap_fee: u64) -> bool {
    &&& 1 <= round.round <= MAX_FEE_ROUNDS
    &&& round.amount + swap_fee + round.mining_fee == incoming
}

/// Every round balances: the amount, the maker's fee and the mining fee make
/// up what came in, and there are no more than [`MAX_FEE_ROUNDS`] of them. So
/// the maker never funds more than it received less its own fee.
pub proof fn law_fee_rounds_balance(
    round: FeeRound,
    incoming: u64,
    swap_fee: u64,
    mining_fee: u64,
    actual: u64,
)
    ensures
        amount_after_fees(incoming, swap_fee, mining_fee) matches Ok(amount) ==> balanced_round(
            FeeRound { round: 1, mining_fee, amount },
            incoming,
            swap_fee,
        ),
        balanced_round(round, incoming, swap_fee) ==> match settled_round(
            round,
            incoming,
            swap_fee,
            actual,
        ) {
            Ok(Some(next)) => balanced_round(next, incoming, swap_fee) && next.round
                == round.round + 1,
            Ok(None) => round.amount + swap_fee + actual == incoming,
            Err(_) => true,
        },
{
}

/// What a contract of the maker as sender holds.
pub struct SenderInfoModel {
    pub funding_tx: TransactionModel,
    pub contract_tx: TransactionModel,
    pub timelock_pubkey: PublicKey,
    pub multisig_redeemscript: Seq<u8>,
    pub contract_redeemscript: Seq<u8>,
    pub funding_amount: u64,
    pub multisig_nonce: SecretKey,
    pub hashlock_nonce: SecretKey,
}

impl View for SenderContractTxInfo {
    type V = SenderInfoModel;

    open spec fn view(&self) -> SenderInfoModel {
        SenderInfoModel {
            funding_tx: self.funding_tx@,
            contract_tx: self.contract_tx@,
            timelock_pubkey: self.timelock_pubkey,
            multisig_redeemscript: self.multisig_redeemscript@,
            contract_redeemscript: self.contract_redeemscript@,
            funding_amount: self.funding_amount,
            multisig_nonce: self.multisig_nonce,
            hashlock_nonce: self.hashlock_nonce,
        }
    }
}

/// The bytes of an optional script, empty where there is none.
pub open spec fn script_or_empty(script: Option<Seq<u8>>) -> Seq<u8> {
    match script {
        Some(bytes) => bytes,
        None => seq![],
    }
}

/// What the maker tells of an outgoing coin: its script of the two keys where
/// both are known, and the contract's otherwise.
pub open spec fn sender_info(
    coin: OutgoingModel,
    funding_tx: TransactionModel,
    next: NextHopInfo,
) -> Option<SenderInfoModel> {
    match public_key_of(coin.timelock_privkey) {
        None => None,
        Some(timelock_pubkey) => Some(
            SenderInfoModel {
                funding_tx,
                contract_tx: coin.contract_tx,
                timelock_pubkey,
                multisig_redeemscript: if coin.my_pubkey is Some && coin.other_pubkey is Some {
                    script_or_empty(coin.multisig_redeemscript)
                } else {
                    script_or_empty(coin.contract_redeemscript)
                },
                contract_redeemscript: script_or_empty(coin.contract_redeemscript),
                funding_amount: coin.funding_amount,
                multisig_nonce: next.next_multisig_nonce,
                hashlock_nonce: next.next_hashlock_nonce,
            },
        ),
    }
}

/// A copy of an optional script, empty where there is none.
fn copy_or_empty(script: &Option<Vec<u8>>) -> (r: Vec<u8>)
    ensures
        r@ == script_or_empty(bytes_model(*script)),
{
    match script {
        Some(bytes) => copy_bytes(bytes.as_slice()),
        None => {
            let r: Vec<u8> = Vec::new();
            assert(r@ =~= seq![]);
            r
        },
    }
}

/// Describes an outgoing coin for the taker; nothing where its timelock key is
/// no secret key.
fn describe_outgoing(coin: &OutgoingSwapCoin, funding_tx: &Transaction, next: &NextHopInfo) -> (r:
    Option<SenderContractTxInfo>)
    ensures
        match (r, sender_info(coin@, funding_tx@, *next)) {
            (Some(info), Some(model)) => info@ == model,
            (None, None) => true,
            _ => false,
        },
{
    let timelock_pubkey = match derive_public_key(&coin.timelock_privkey) {
        None => {
            return None;
        },
        Some(key) => key,
    };
    let multisig_redeemscript = if coin.my_pubkey.is_some() && coin.other_pubkey.is_some() {
        copy_or_empty(&coin.multisig_redeemscript)
    } else {
        copy_or_empty(&coin.contract_redeemscript)
    };
    Some(
        SenderContractTxInfo {
            funding_tx: funding_tx.clone(),
            contract_tx: coin.contract_tx.clone(),
            timelock_pubkey,
            multisig_redeemscript,
            contract_redeemscript: copy_or_empty(&coin.contract_redeemscript),
            funding_amount: coin.funding_amount,
            multisig_nonce: next.next_multisig_nonce,
            hashlock_nonce: next.next_hashlock_nonce,
        },
    )
}

/// A list of coins under a swap's id.
pub open spec fn assigned(coins: Seq<OutgoingModel>, id: Seq<char>) -> Seq<OutgoingModel> {
    coins.map_values(|coin: OutgoingModel| OutgoingModel { swap_id: Some(id), ..coin })
}

/// Puts outgoing coins under a swap's id.
pub fn assign_outgoing(coins: &mut Vec<OutgoingSwapCoin>, id: &String)
    ensures
        outgoing_models(final(coins)@) == assigned(outgoing_models(old(coins)@), id@),
{
    let ghost before = coins@;
    let n = coins.len();
    let mut i: usize = 0;
    while i < n
        invariant
            n == coins@.len(),
            n == before.len(),
            i <= n,
            forall|j: int|
                0 <= j < i ==> (#[trigger] coins@[j])@ == (OutgoingModel {
                    swap_id: Some(id@),
                    ..before[j]@
                }),
            forall|j: int| i <= j < n ==> (#[trigger] coins@[j]) == before[j],
        decreases n - i,
    {
        coins[i].swap_id = Some(id.clone());
        i += 1;
    }
    assert(outgoing_models(coins@) =~= assigned(outgoing_models(before), id@));
}

/// The contract transactions of a list of incoming coins.
pub open spec fn receiver_txs(coins: Seq<IncomingModel>) -> Seq<TransactionModel> {
    coins.map_values(|coin: IncomingModel| coin.contract_tx)
}

/// Whether the funding that was built can be described to the taker: there is
/// a funding transaction and a next key for every coin, and every timelock key
/// is a secret key.
pub open spec fn describable(
    coins: Seq<OutgoingModel>,
    funding_txes: Seq<TransactionModel>,
    next: Seq<NextHopInfo>,
) -> bool {
    forall|i: int|
        0 <= i < coins.len() ==> #[trigger] sender_info(coins[i], funding_txes[i], next[i]) is Some
}

/// The state once the outgoing funding of a swap is built.
pub open spec fn funded_state(
    state: StateModel,
    id: Seq<char>,
    funding_txes: Seq<TransactionModel>,
    outgoing: Seq<OutgoingModel>,
) -> StateModel {
    StateModel {
        reserve_utxo: outputs_of_all(funding_txes),
        outgoing_swapcoins: assigned(outgoing, id),
        pending_funding_txes: funding_txes,
        phase: SwapPhase::AwaitingSignaturesOrPreimage,
        ..state
    }
}

/// Takes over the outgoing funding and asks the taker for the signatures of
/// both sides. Fails, with the state unchanged, where a timelock key is no
/// secret key.
pub fn finish_proof_of_funding(
    state: &mut ConnectionState,
    pof: &ProofOfFunding,
    funding_txes: Vec<Transaction>,
    outgoing: Vec<OutgoingSwapCoin>,
) -> (r: Result<ReqContractSigsAsRecvrAndSender, MakerError>)
    requires
        outgoing@.len() <= funding_txes@.len(),
        outgoing@.len() <= pof.next_openswap_info@.len(),
    ensures
        r is Ok <==> describable(
            outgoing_models(outgoing@),
            tx_models(funding_txes@),
            pof.next_openswap_info@,
        ),
        match r {
            Ok(response) => {
                &&& tx_models(response.receivers_contract_txs@) == receiver_txs(
                    old(state)@.incoming_swapcoins,
                )
                &&& response.senders_contract_txs_info@.len() == outgoing@.len()
                &&& forall|i: int|
                    0 <= i < outgoing@.len() ==> Some(
                        (#[trigger] response.senders_contract_txs_info@[i])@,
                    ) == sender_info(
                        outgoing@[i]@,
                        funding_txes@[i]@,
                        pof.next_openswap_info@[i],
                    )
                &&& final(state)@ == funded_state(
                    old(state)@,
                    pof.id@,
                    tx_models(funding_txes@),
                    outgoing_models(outgoing@),
                )
            },
            Err(e) => e == MakerError::Secp && final(state)@ == old(state)@,
        },
{
    let ghost models = outgoing_models(outgoing@);
    let ghost txs = tx_models(funding_txes@);
    let mut senders_contract_txs_info: Vec<SenderContractTxInfo> = Vec::new();
    let mut i: usize = 0;
    while i < outgoing.len()
        invariant
            i <= outgoing.len(),
            outgoing@.len() <= funding_txes@.len(),
            outgoing@.len() <= pof.next_openswap_info@.len(),
            models == outgoing_models(outgoing@),
            txs == tx_models(funding_txes@),
            state@ == old(state)@,
            senders_contract_txs_info@.len() == i,
            forall|j: int|
                0 <= j < i ==> Some((#[trigger] senders_contract_txs_info@[j])@) == sender_info(
                    models[j],
                    txs[j],
                    pof.next_openswap_info@[j],
                ),
        decreases outgoing.len() - i,
    {
        match describe_outgoing(&outgoing[i], &funding_txes[i], &pof.next_openswap_info[i]) {
            None => {
                assert(sender_info(
                    models[i as int],
                    txs[i as int],
                    pof.next_openswap_info@[i as int],
                ) is None);
                return Err(MakerError::Secp);
            },
            Some(info) => {
                senders_contract_txs_info.push(info);
            },
        }
        i += 1;
    }
    proof {
        assert forall|j: int| 0 <= j < models.len() implies #[trigger] sender_info(
            models[j],
            txs[j],
            pof.next_openswap_info@[j],
        ) is Some by {
            assert(Some(senders_contract_txs_info@[j]@) == sender_info(
                models[j],
                txs[j],
                pof.next_openswap_info@[j],
            ));
        }
    }
    let mut receivers_contract_txs: Vec<Transaction> = Vec::new();
    let mut k: usize = 0;
    while k < state.incoming_swapcoins.len()
        invariant
            k <= state.incoming_swapcoins.len(),
            receivers_contract_txs@.len() == k,
            forall|j: int|
                0 <= j < k ==> (#[trigger] receivers_contract_txs@[j])@
                    == state.incoming_swapcoins@[j].contract_tx@,
        decreases state.incoming_swapcoins.len() - k,
    {
        receivers_contract_txs.push(state.incoming_swapcoins[k].contract_tx.clone());
        k += 1;
    }
    assert(tx_models(receivers_contract_txs@) =~= receiver_txs(
        incoming_models(state.incoming_swapcoins@),
    ));
    let mut outgoing = outgoing;
    assign_outgoing(&mut outgoing, &pof.id);
    state.reserve_utxo = all_outputs(&funding_txes);
    state.outgoing_swapcoins = outgoing;
    state.pending_funding_txes = funding_txes;
    state.phase = SwapPhase::AwaitingSignaturesOrPreimage;
    Ok(ReqContractSigsAsRecvrAndSender { receivers_contract_txs, senders_contract_txs_info })
}

/// The funding output is the first that pays to the two-key script, and its
/// amount is the one that counts; where no output does, there is none.
pub proof fn law_funding_output_pays_to_the_script(info: FundingTxInfo)
    requires
        info.funding_tx.output@.len() <= u32::MAX,
    ensures
        match funding_value(info) {
            Ok(value) => {
                let outputs = info.funding_tx.output@;
                exists|i: int|
                    {
                        &&& 0 <= i < outputs.len()
                        &&& (#[trigger] outputs[i]).script_pubkey@ == p2wsh_bytes(
                            info.multisig_redeemscript@,
                        )
                        &&& outputs[i].value == value
                        &&& funding_index(info) == Ok::<u32, MakerError>(i as u32)
                        &&& forall|j: int|
                            0 <= j < i ==> (#[trigger] outputs[j]).script_pubkey@ != p2wsh_bytes(
                                info.multisig_redeemscript@,
                            )
                    }
            },
            Err(_) => forall|j: int|
                0 <= j < info.funding_tx.output@.len() ==> (
                #[trigger] info.funding_tx.output@[j]).script_pubkey@ != p2wsh_bytes(
                    info.multisig_redeemscript@,
                ),
        },
{
    lemma_first_output_for(info.funding_tx.output@, p2wsh_bytes(info.multisig_redeemscript@));
    if funding_value(info) is Ok {
        let i = funding_index(info)->Ok_0 as int;
        assert(info.funding_tx.output@[i].value == funding_value(info)->Ok_0);
    }
}

/// A proof of funding of the agreed swap, in the agreed number of contracts,
/// for the agreed lock time and for no more than the agreed amount is accepted,
/// before and after the taker's signatures are asked for.
pub proof fn law_proper_funding_is_accepted(state: StateModel, pof: ProofOfFunding)
    requires
        state.phase == SwapPhase::AwaitingContractData || state.phase
            == SwapPhase::AwaitingSignaturesOrPreimage,
        state.swap_id == Some(pof.id@),
        state.timelock == pof.refund_locktime,
        state.tx_count == pof.confirmed_funding_txes@.len(),
        forall|i: int|
            0 <= i < pof.confirmed_funding_txes@.len() ==> funding_value(
                #[trigger] pof.confirmed_funding_txes@[i],
            ) is Ok,
        funding_sum(pof.confirmed_funding_txes@, pof.confirmed_funding_txes@.len() as int)
            <= state.swap_amount,
    ensures
        funding_terms_verdict(state, pof) is Ok,
{
    let infos = pof.confirmed_funding_txes@;
    lemma_sums_that_fit(infos, infos.len() as int, infos.len() as int);
    lemma_declared_sum(infos, infos.len() as int);
}

/// Amounts whose sum is an amount can be added, one after the other.
proof fn lemma_sums_that_fit(infos: Seq<FundingTxInfo>, n: int, m: int)
    requires
        0 <= n <= m <= infos.len(),
        forall|i: int| 0 <= i < infos.len() ==> funding_value(#[trigger] infos[i]) is Ok,
        funding_sum(infos, m) <= u64::MAX,
    ensures
        declared_incoming(infos, n) is Ok,
        0 <= funding_sum(infos, n) <= funding_sum(infos, m),
    decreases m, n,
{
    lemma_sums_grow(infos, n, m);
    if n > 0 {
        lemma_sums_that_fit(infos, n - 1, m);
        lemma_declared_sum(infos, n - 1);
        assert(funding_value(infos[n - 1]) is Ok);
    }
}

proof fn lemma_sums_grow(infos: Seq<FundingTxInfo>, n: int, m: int)
    requires
        0 <= n <= m <= infos.len(),
    ensures
        0 <= funding_sum(infos, n) <= funding_sum(infos, m),
    decreases m,
{
    if n < m {
        lemma_sums_grow(infos, n, m - 1);
    } else if n > 0 {
        lemma_sums_grow(infos, n - 1, n - 1);
    }
}

/// A proof of funding outside the two phases that expect it is rejected.
pub proof fn law_funding_is_expected(state: StateModel, pof: ProofOfFunding)
    requires
        funding_terms_verdict(state, pof) is Ok,
    ensures
        state.phase == SwapPhase::AwaitingContractData || state.phase
            == SwapPhase::AwaitingSignaturesOrPreimage,
        forall|i: int|
            0 <= i < pof.confirmed_funding_txes@.len() ==> funding_value(
                #[trigger] pof.confirmed_funding_txes@[i],
            ) is Ok,
{
    lemma_added_values(pof.confirmed_funding_txes@, pof.confirmed_funding_txes@.len() as int);
}

proof fn lemma_added_values(infos: Seq<FundingTxInfo>, n: int)
    requires
        0 <= n <= infos.len(),
        declared_incoming(infos, n) is Ok,
    ensures
        forall|i: int| 0 <= i < n ==> funding_value(#[trigger] infos[i]) is Ok,
    decreases n,
{
    if n > 0 {
        lemma_added_values(infos, n - 1);
    }
}

/// The two keys of a coin are the two keys of its funding output: where one of
/// them is the maker's, in whichever place it stands, the other is the other
/// party's.
pub proof fn law_coin_has_the_keys_of_its_output(
    id: Seq<char>,
    info: FundingTxInfo,
    contract: IncomingContract,
    tweakable_privkey: SecretKey,
    hashvalue: Hash160,
    first: PublicKey,
    second: PublicKey,
)
    requires
        contract.pubkeys == Ok::<(PublicKey, PublicKey), ProtocolError>((first, second)),
        first != second,
        incoming_coin(id, info, contract, tweakable_privkey, hashvalue) is Ok,
        ({
            let mine = incoming_coin(
                id,
                info,
                contract,
                tweakable_privkey,
                hashvalue,
            )->Ok_0.my_pubkey;
            mine == Some(first) || mine == Some(second)
        }),
    ensures
        ({
            let coin = incoming_coin(id, info, contract, tweakable_privkey, hashvalue)->Ok_0;
            &&& coin.other_pubkey is Some
            &&& coin.other_pubkey != coin.my_pubkey
            &&& coin.other_pubkey == Some(first) || coin.other_pubkey == Some(second)
            &&& coin.my_pubkey == Some(first) <==> coin.other_pubkey == Some(second)
            &&& coin.my_pubkey == Some(second) <==> coin.other_pubkey == Some(first)
        }),
{
}

/// The maker can spend a coin that it took over: its public key is that of its
/// secret key, which is the tweakable key plus the nonce of the funding
/// output; the key that spends with the preimage is the tweakable key plus the
/// other nonce. The coin is worth what its funding output holds and is locked
/// to the hash of the proof.
pub proof fn law_incoming_coin_is_the_makers(
    id: Seq<char>,
    info: FundingTxInfo,
    contract: IncomingContract,
    tweakable_privkey: SecretKey,
    hashvalue: Hash160,
)
    requires
        incoming_coin(id, info, contract, tweakable_privkey, hashvalue) is Ok,
    ensures
        ({
            let coin = incoming_coin(id, info, contract, tweakable_privkey, hashvalue)->Ok_0;
            &&& coin.my_privkey is Some
            &&& coin.my_pubkey is Some
            &&& public_key_of(coin.my_privkey->0) == coin.my_pubkey
            &&& Some(coin.my_privkey->0) == tweaked_secret(tweakable_privkey, info.multisig_nonce)
            &&& Some(coin.hashlock_privkey) == tweaked_secret(
                tweakable_privkey,
                info.hashlock_nonce,
            )
            &&& funding_value(info) == Ok::<u64, MakerError>(coin.funding_amount)
            &&& coin.hashvalue == Some(hashvalue)
            &&& coin.swap_id == Some(id)
            &&& coin.protocol == ProtocolVersion::Legacy
            &&& contract.contract_tx is Ok && coin.contract_tx == contract.contract_tx->Ok_0@
            &&& coin.multisig_redeemscript == Some(info.multisig_redeemscript@)
            &&& coin.contract_redeemscript == Some(info.contract_redeemscript@)
            &&& coin.other_privkey is None && coin.hash_preimage is None
            &&& coin.others_contract_sig is None
        }),
{
}

/// The amounts of coins, in all.
pub open spec fn coin_sum(coins: Seq<IncomingModel>) -> int
    decreases coins.len(),
{
    if coins.len() == 0 {
        0
    } else {
        coin_sum(coins.drop_last()) + coins.last().funding_amount
    }
}

/// Every funding output becomes one coin, in order, and the coins are worth
/// what the outputs hold in all.
pub proof fn law_every_funding_becomes_a_coin(
    id: Seq<char>,
    infos: Seq<FundingTxInfo>,
    contracts: Seq<IncomingContract>,
    tweakable_privkey: SecretKey,
    hashvalue: Hash160,
    n: int,
)
    requires
        0 <= n <= infos.len(),
        incoming_coins(id, infos, contracts, tweakable_privkey, hashvalue, n) is Ok,
    ensures
        ({
            let coins = incoming_coins(
                id,
                infos,
                contracts,
                tweakable_privkey,
                hashvalue,
                n,
            )->Ok_0;
            &&& coins.len() == n
            &&& forall|i: int|
                0 <= i < n ==> incoming_coin(
                    id,
                    infos[i],
                    contracts[i],
                    tweakable_privkey,
                    hashvalue,
                ) == Ok::<IncomingModel, MakerError>(#[trigger] coins[i])
            &&& coin_sum(coins) == funding_sum(infos, n)
        }),
    decreases n,
{
    if n > 0 {
        law_every_funding_becomes_a_coin(
            id,
            infos,
            contracts,
            tweakable_privkey,
            hashvalue,
            n - 1,
        );
        let coins = incoming_coins(id, infos, contracts, tweakable_privkey, hashvalue, n)->Ok_0;
        let earlier = incoming_coins(
            id,
            infos,
            contracts,
            tweakable_privkey,
            hashvalue,
            n - 1,
        )->Ok_0;
        let coin = incoming_coin(
            id,
            infos[n - 1],
            contracts[n - 1],
            tweakable_privkey,
            hashvalue,
        )->Ok_0;
        assert(coins.drop_last() =~= earlier);
        assert(coins.last() == coin);
        law_incoming_coin_is_the_makers(
            id,
            infos[n - 1],
            contracts[n - 1],
            tweakable_privkey,
            hashvalue,
        );
    }
}

/// The maker gives up exactly what it received less its fee and the mining fee,
/// wherever that leaves anything or nothing; it never pays the difference.
pub proof fn law_fees_come_off_the_incoming_amount(incoming: u64, swap_fee: u64, mining_fee: u64)
    ensures
        amount_after_fees(incoming, swap_fee, mining_fee) is Ok <==> swap_fee + mining_fee
            <= incoming,
        amount_after_fees(incoming, swap_fee, mining_fee) matches Ok(amount) ==> amount + swap_fee
            + mining_fee == incoming,
{
}

/// Funding is built again with its actual mining fee until that is the fee
/// that the amount was reduced by, at most thrice.
pub proof fn law_fee_rounds_converge(round: FeeRound, incoming: u64, swap_fee: u64, actual: u64)
    ensures
        settled_round(round, incoming, swap_fee, actual) == Ok::<Option<FeeRound>, MakerError>(None)
            <==> actual == round.mining_fee,
        round.round >= 3 && actual != round.mining_fee ==> settled_round(
            round,
            incoming,
            swap_fee,
            actual,
        ) is Err,
        round.round < 3 && actual != round.mining_fee && swap_fee + actual <= incoming ==> ({
            let next = settled_round(round, incoming, swap_fee, actual);
            &&& next is Ok && next->Ok_0 is Some
            &&& next->Ok_0->0.mining_fee == actual
            &&& next->Ok_0->0.amount + swap_fee + actual == incoming
            &&& next->Ok_0->0.round == round.round + 1
        }),
{
}

/// What the taker is told of an outgoing coin lets the next party check it: the
/// timelock key is that of the maker's secret key, the scripts and the contract
/// transaction are the coin's own, and each nonce is the one that the taker gave
/// for its purpose.
pub proof fn law_outgoing_coin_is_described(
    coin: OutgoingModel,
    funding_tx: TransactionModel,
    next: NextHopInfo,
)
    requires
        public_key_of(coin.timelock_privkey) is Some,
        coin.my_pubkey is Some,
        coin.other_pubkey is Some,
        coin.multisig_redeemscript is Some,
        coin.contract_redeemscript is Some,
    ensures
        ({
            let told = sender_info(coin, funding_tx, next);
            &&& told is Some
            &&& Some(told->0.timelock_pubkey) == public_key_of(coin.timelock_privkey)
            &&& Some(told->0.multisig_redeemscript) == coin.multisig_redeemscript
            &&& Some(told->0.contract_redeemscript) == coin.contract_redeemscript
            &&& told->0.funding_tx == funding_tx
            &&& told->0.contract_tx == coin.contract_tx
            &&& told->0.funding_amount == coin.funding_amount
            &&& told->0.multisig_nonce == next.next_multisig_nonce
            &&& told->0.hashlock_nonce == next.next_hashlock_nonce
        }),
{
}

/// Once the funding is built, the swap reserves every output of every funding
/// transaction, keeps those to be broadcast later, holds the outgoing coins
/// under its own id and otherwise as they are, and keeps its incoming coins.
pub proof fn law_funded_swap_keeps_its_coins(
    state: StateModel,
    id: Seq<char>,
    funding_txes: Seq<TransactionModel>,
    outgoing: Seq<OutgoingModel>,
)
    ensures
        ({
            let after = funded_state(state, id, funding_txes, outgoing);
            &&& after.incoming_swapcoins == state.incoming_swapcoins
            &&& after.pending_funding_txes == funding_txes
            &&& after.outgoing_swapcoins.len() == outgoing.len()
            &&& forall|i: int|
                0 <= i < outgoing.len() ==> {
                    let coin = #[trigger] after.outgoing_swapcoins[i];
                    coin.swap_id == Some(id) && coin == (OutgoingModel {
                        swap_id: coin.swap_id,
                        ..outgoing[i]
                    })
                }
            &&& forall|t: int, v: int|
                0 <= t < funding_txes.len() && 0 <= v < funding_txes[t].output.len()
                    ==> after.reserve_utxo.contains(
                    #[trigger] output_at(funding_txes[t], v),
                )
            &&& after.phase == SwapPhase::AwaitingSignaturesOrPreimage
            &&& after.timelock == state.timelock
            &&& after.swap_amount == state.swap_amount
            &&& after.swap_id == state.swap_id
            &&& !state.funding_broadcast ==> !after.funding_broadcast
        }),
{
    assert forall|t: int, v: int|
        0 <= t < funding_txes.len() && 0 <= v < funding_txes[t].output.len() implies outputs_of_all(
        funding_txes,
    ).contains(#[trigger] output_at(funding_txes[t], v)) by {
        law_every_output_is_listed(funding_txes, t, v);
    }
}

/// The receiver's contract transactions are those of the incoming coins, in
/// order.
pub proof fn law_receiver_contracts_are_the_coins(coins: Seq<IncomingModel>)
    ensures
        receiver_txs(coins).len() == coins.len(),
        forall|i: int|
            0 <= i < coins.len() ==> (#[trigger] receiver_txs(coins)[i]) == coins[i].contract_tx,
{
}

} // verus!
