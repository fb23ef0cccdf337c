//! Verification of a taker's proof of funding.

use crate::chain::{
    first_output_for, has_outpoint, hash_equal, outpoint_equal, Hash160, OutPoint,
};
use crate::error::MakerError;
use crate::maker::handlers::MIN_CONTRACT_REACTION_TIME;
use crate::primitives::{compute_txid, p2wsh_bytes, redeemscript_to_scriptpubkey, txid_of};
use crate::protocol::error::ProtocolError;
use crate::protocol::legacy_messages::{FundingTxInfo, ProofOfFunding};
use vstd::prelude::*;

verus! {

/// How far the check of a proof of funding has come.
#[derive(Debug)]
pub struct FundingCheck {
    /// The funding outputs seen so far.
    pub seen: Vec<OutPoint>,
    /// The hash that the contracts seen so far are locked to.
    pub hashvalue: Option<Hash160>,
    /// The earliest height that one of them confirmed at.
    pub confirmed_at: Option<u32>,
}

/// What such a check holds.
pub struct FundingCheckModel {
    pub seen: Seq<OutPoint>,
    pub hashvalue: Option<Hash160>,
    pub confirmed_at: Option<u32>,
}

impl View for FundingCheck {
    type V = FundingCheckModel;

    open spec fn view(&self) -> FundingCheckModel {
        FundingCheckModel {
            seen: self.seen@,
            hashvalue: self.hashvalue,
            confirmed_at: self.confirmed_at,
        }
    }
}

/// What the contract scripts and the wallet say of a funding transaction.
#[derive(Debug)]
pub struct FundingFacts {
    /// The funding output that they are about.
    pub outpoint: OutPoint,
    /// The confirmations that its transaction was waited for to have.
    pub depth: u32,
    /// What that wait came to.
    pub confirmed: Result<(), MakerError>,
    /// Whether the funding output is unspent.
    pub unspent: bool,
    /// The height that the funding transaction confirmed at, where known.
    pub height: Option<u32>,
    /// Whether the script of the funding output is one of two keys.
    pub is_multisig: Result<(), ProtocolError>,
    /// Whether the maker's key is one of them.
    pub has_our_key: Result<(), ProtocolError>,
    /// Whether the contract's hashlock key is the maker's.
    pub hashlock_has_our_key: Result<(), ProtocolError>,
    /// Whether the contract is the one that the maker signed for this output.
    pub matches_signed_contract: Result<(), MakerError>,
    /// The hash that the contract is locked to.
    pub hashvalue: Result<Hash160, ProtocolError>,
}

/// The greater of the confirmations that are configured and the least.
pub open spec fn depth_asked(configured: u32, least: u32) -> u32 {
    if configured >= least {
        configured
    } else {
        least
    }
}

/// The confirmations that a funding transaction needs: as many as the maker is
/// configured to ask for, and no fewer than `least`.
pub fn required_depth(configured: u32, least: u32) -> (r: u32)
    ensures
        r == depth_asked(configured, least),
{
    if configured >= least {
        configured
    } else {
        least
    }
}

/// The funding output that a proof names, or what it is rejected for. The
/// contract's lock time must exceed that of the next hop by the reaction time.
pub open spec fn funding_outpoint(
    info: FundingTxInfo,
    refund_locktime: u16,
    locktime: Result<u16, ProtocolError>,
    seen: Seq<OutPoint>,
) -> Result<OutPoint, MakerError> {
    match locktime {
        Err(e) => Err(MakerError::Protocol(e)),
        Ok(blocks) => if blocks < refund_locktime + MIN_CONTRACT_REACTION_TIME {
            Err(MakerError::General("Next hop locktime too close to current hop locktime"))
        } else {
            match first_output_for(
                info.funding_tx.output@,
                p2wsh_bytes(info.multisig_redeemscript@),
            ) {
                None => Err(MakerError::General("Funding output not found")),
                Some(i) => {
                    let point = OutPoint { txid: txid_of(info.funding_tx@), vout: i as u32 };
                    if seen.contains(point) {
                        Err(MakerError::General("Duplicate funding outpoint"))
                    } else {
                        Ok(point)
                    }
                },
            }
        },
    }
}

/// The earlier of two heights.
pub open spec fn earlier(first: Option<u32>, second: Option<u32>) -> Option<u32> {
    match (first, second) {
        (Some(a), Some(b)) => if a <= b {
            Some(a)
        } else {
            Some(b)
        },
        (None, _) => second,
        (_, None) => first,
    }
}

/// What a funding transaction is rejected for once its output is known, or the
/// hash of its contract. The facts must be about that output, and about a wait
/// for `depth` confirmations.
pub open spec fn funding_facts_verdict(
    facts: FundingFacts,
    point: OutPoint,
    depth: u32,
    known: Option<Hash160>,
) -> Result<Hash160, MakerError> {
    if facts.outpoint != point || facts.depth != depth {
        Err(MakerError::General("Facts of another funding output or depth"))
    } else if facts.confirmed is Err {
        Err(facts.confirmed->Err_0)
    } else if !facts.unspent {
        Err(MakerError::General("Funding output already spent"))
    } else if facts.is_multisig is Err {
        Err(MakerError::Protocol(facts.is_multisig->Err_0))
    } else if facts.has_our_key is Err {
        Err(MakerError::Protocol(facts.has_our_key->Err_0))
    } else if facts.hashlock_has_our_key is Err {
        Err(MakerError::Protocol(facts.hashlock_has_our_key->Err_0))
    } else if facts.matches_signed_contract is Err {
        Err(facts.matches_signed_contract->Err_0)
    } else {
        match facts.hashvalue {
            Err(e) => Err(MakerError::Protocol(e)),
            Ok(hash) => if known is Some && known->0 != hash {
                Err(MakerError::General("Hash values in contracts do not match"))
            } else {
                Ok(hash)
            },
        }
    }
}

/// The check after another funding transaction.
pub open spec fn checked_funding(
    check: FundingCheckModel,
    info: FundingTxInfo,
    refund_locktime: u16,
    locktime: Result<u16, ProtocolError>,
    facts: FundingFacts,
    depth: u32,
) -> Result<FundingCheckModel, MakerError> {
    match funding_outpoint(info, refund_locktime, locktime, check.seen) {
        Err(e) => Err(e),
        Ok(point) => match funding_facts_verdict(facts, point, depth, check.hashvalue) {
            Err(e) => Err(e),
            Ok(hash) => Ok(
                FundingCheckModel {
                    seen: check.seen.push(point),
                    hashvalue: Some(hash),
                    confirmed_at: earlier(check.confirmed_at, facts.height),
                },
            ),
        },
    }
}

impl FundingCheck {
    /// Begins to check a proof, which must name a funding transaction.
    pub fn begin(message: &ProofOfFunding) -> (r: Result<FundingCheck, MakerError>)
        ensures
            match r {
                Ok(check) => message.confirmed_funding_txes@.len() > 0 && check@ == (
                FundingCheckModel { seen: seq![], hashvalue: None, confirmed_at: None }),
                Err(e) => message.confirmed_funding_txes@.len() == 0 && e == MakerError::General(
                    "No funding txs provided by Taker",
                ),
            },
    {
        if message.confirmed_funding_txes.len() == 0 {
            return Err(MakerError::General("No funding txs provided by Taker"));
        }
        let check = FundingCheck { seen: Vec::new(), hashvalue: None, confirmed_at: None };
        assert(check@.seen =~= seq![]);
        Ok(check)
    }

    /// The funding output that a proof names: it must leave time to react and
    /// not have been named before. `locktime` is that of the contract.
    pub fn locate(
        &self,
        info: &FundingTxInfo,
        refund_locktime: u16,
        locktime: Result<u16, ProtocolError>,
    ) -> (r: Result<OutPoint, MakerError>)
        ensures
            r == funding_outpoint(*info, refund_locktime, locktime, self@.seen),
    {
        let blocks: u16 = match locktime {
            Err(e) => {
                return Err(MakerError::Protocol(e));
            },
            Ok(blocks) => blocks,
        };
        if blocks.saturating_sub(refund_locktime) < MIN_CONTRACT_REACTION_TIME {
            return Err(MakerError::General("Next hop locktime too close to current hop locktime"));
        }
        let script = redeemscript_to_scriptpubkey(info.multisig_redeemscript.as_slice());
        match info.funding_tx.output_position(script.as_slice()) {
            None => Err(MakerError::General("Funding output not found")),
            Some(i) => {
                let point = OutPoint { txid: compute_txid(&info.funding_tx), vout: i as u32 };
                if has_outpoint(&self.seen, &point) {
                    Err(MakerError::General("Duplicate funding outpoint"))
                } else {
                    Ok(point)
                }
            },
        }
    }

    /// Takes over a funding output that [`FundingCheck::locate`] let through:
    /// it must be confirmed `depth` times, unspent, locked to the maker's keys and to the contract that
    /// the maker signed, and its contract must have the hash of the others.
    pub fn confirm(self, point: OutPoint, facts: FundingFacts, depth: u32) -> (r: Result<
        FundingCheck,
        MakerError,
    >)
        ensures
            match (r, funding_facts_verdict(facts, point, depth, self.hashvalue)) {
                (Ok(check), Ok(hash)) => check@ == (FundingCheckModel {
                    seen: self@.seen.push(point),
                    hashvalue: Some(hash),
                    confirmed_at: earlier(self.confirmed_at, facts.height),
                }),
                (Err(e), Err(expected)) => e == expected,
                _ => false,
            },
    {
        if !outpoint_equal(&facts.outpoint, &point) || facts.depth != depth {
            return Err(MakerError::General("Facts of another funding output or depth"));
        }
        if let Err(e) = facts.confirmed {
            return Err(e);
        }
        if !facts.unspent {
            return Err(MakerError::General("Funding output already spent"));
        }
        let confirmed_at: Option<u32> = match (self.confirmed_at, facts.height) {
            (Some(earliest), Some(height)) => if earliest <= height {
                Some(earliest)
            } else {
                Some(height)
            },
            (None, height) => height,
            (earliest, None) => earliest,
        };
        if let Err(e) = facts.is_multisig {
            return Err(MakerError::Protocol(e));
        }
        if let Err(e) = facts.has_our_key {
            return Err(MakerError::Protocol(e));
        }
        if let Err(e) = facts.hashlock_has_our_key {
            return Err(MakerError::Protocol(e));
        }
        if let Err(e) = facts.matches_signed_contract {
            return Err(e);
        }
        let hash: Hash160 = match facts.hashvalue {
            Err(e) => {
                return Err(MakerError::Protocol(e));
            },
            Ok(hash) => hash,
        };
        if let Some(known) = self.hashvalue {
            if !hash_equal(&known, &hash) {
                return Err(MakerError::General("Hash values in contracts do not match"));
            }
        }
        let mut seen = self.seen;
        seen.push(point);
        Ok(FundingCheck { seen, hashvalue: Some(hash), confirmed_at })
    }

    /// The hash of the contracts and the earliest height that their funding
    /// confirmed at.
    pub fn finish(&self) -> (r: Result<(Hash160, Option<u32>), MakerError>)
        ensures
            r == check_outcome(self@),
    {
        match self.hashvalue {
            Some(hash) => Ok((hash, self.confirmed_at)),
            None => Err(MakerError::General("No hashvalue found in contracts")),
        }
    }
}

/// What a check comes to: the hash of the contracts and the earliest height.
pub open spec fn check_outcome(check: FundingCheckModel) -> Result<
    (Hash160, Option<u32>),
    MakerError,
> {
    match check.hashvalue {
        Some(hash) => Ok((hash, check.confirmed_at)),
        None => Err(MakerError::General("No hashvalue found in contracts")),
    }
}

/// The check after the first `n` funding transactions of a proof.
pub open spec fn checked_fundings(
    infos: Seq<FundingTxInfo>,
    refund_locktime: u16,
    locktimes: Seq<Result<u16, ProtocolError>>,
    facts: Seq<FundingFacts>,
    depth: u32,
    n: int,
) -> Result<FundingCheckModel, MakerError>
    decreases n,
{
    if n <= 0 {
        Ok(FundingCheckModel { seen: seq![], hashvalue: None, confirmed_at: None })
    } else {
        match checked_fundings(infos, refund_locktime, locktimes, facts, depth, n - 1) {
            Err(e) => Err(e),
            Ok(check) => checked_funding(
                check,
                infos[n - 1],
                refund_locktime,
                locktimes[n - 1],
                facts[n - 1],
                depth,
            ),
        }
    }
}

/// What a whole proof of funding comes to.
pub open spec fn proof_verdict(
    message: ProofOfFunding,
    locktimes: Seq<Result<u16, ProtocolError>>,
    facts: Seq<FundingFacts>,
    depth: u32,
) -> Result<(Hash160, Option<u32>), MakerError> {
    if message.confirmed_funding_txes@.len() == 0 {
        Err(MakerError::General("No funding txs provided by Taker"))
    } else {
        match checked_fundings(
            message.confirmed_funding_txes@,
            message.refund_locktime,
            locktimes,
            facts,
            depth,
            message.confirmed_funding_txes@.len() as int,
        ) {
            Err(e) => Err(e),
            Ok(check) => check_outcome(check),
        }
    }
}

/// Once a funding transaction is rejected, so is the whole proof, for the same
/// reason.
proof fn lemma_first_rejection(
    infos: Seq<FundingTxInfo>,
    refund_locktime: u16,
    locktimes: Seq<Result<u16, ProtocolError>>,
    facts: Seq<FundingFacts>,
    depth: u32,
    k: int,
    n: int,
)
    requires
        0 <= k <= n,
        checked_fundings(infos, refund_locktime, locktimes, facts, depth, k) is Err,
    ensures
        checked_fundings(infos, refund_locktime, locktimes, facts, depth, n) == checked_fundings(
            infos,
            refund_locktime,
            locktimes,
            facts,
            depth,
            k,
        ),
    decreases n - k,
{
    if k < n {
        lemma_first_rejection(infos, refund_locktime, locktimes, facts, depth, k, n - 1);
    }
}

/// Verifies a proof of funding, given the lock time of each contract and what
/// is known of each funding transaction, which must have `depth` confirmations.
#[verifier::loop_isolation(false)]
pub fn verify_proof_of_funding(
    message: &ProofOfFunding,
    locktimes: Vec<Result<u16, ProtocolError>>,
    facts: Vec<FundingFacts>,
    depth: u32,
) -> (r: Result<(Hash160, Option<u32>), MakerError>)
    requires
        locktimes@.len() == message.confirmed_funding_txes@.len(),
        facts@.len() == message.confirmed_funding_txes@.len(),
    ensures
        r == proof_verdict(*message, locktimes@, facts@, depth),
{
    let mut check = match FundingCheck::begin(message) {
        Err(e) => {
            return Err(e);
        },
        Ok(check) => check,
    };
    let ghost infos = message.confirmed_funding_txes@;
    let ghost all_locktimes = locktimes@;
    let ghost all_facts = facts@;
    let mut next_locktimes = locktimes;
    let mut next_facts = facts;
    let mut i: usize = 0;
    assert(all_locktimes.subrange(0, all_locktimes.len() as int) =~= all_locktimes);
    assert(all_facts.subrange(0, all_facts.len() as int) =~= all_facts);
    while i < message.confirmed_funding_txes.len()
        invariant
            infos == message.confirmed_funding_txes@,
            infos.len() > 0,
            i <= infos.len(),
            all_locktimes.len() == infos.len(),
            all_facts.len() == infos.len(),
            next_locktimes@ == all_locktimes.subrange(i as int, infos.len() as int),
            next_facts@ == all_facts.subrange(i as int, infos.len() as int),
            checked_fundings(
                infos,
                message.refund_locktime,
                all_locktimes,
                all_facts,
                depth,
                i as int,
            ) == Ok::<FundingCheckModel, MakerError>(check@),
        decreases infos.len() - i,
    {
        let locktime = next_locktimes.remove(0);
        let fact = next_facts.remove(0);
        proof {
            assert(locktime == all_locktimes[i as int]);
            assert(fact == all_facts[i as int]);
            assert(next_locktimes@ =~= all_locktimes.subrange(i + 1, infos.len() as int));
            assert(next_facts@ =~= all_facts.subrange(i + 1, infos.len() as int));
            if checked_fundings(
                infos,
                message.refund_locktime,
                all_locktimes,
                all_facts,
                depth,
                i + 1,
            ) is Err {
                lemma_first_rejection(
                    infos,
                    message.refund_locktime,
                    all_locktimes,
                    all_facts,
                    depth,
                    i + 1,
                    infos.len() as int,
                );
            }
        }
        let point = match check.locate(
            &message.confirmed_funding_txes[i],
            message.refund_locktime,
            locktime,
        ) {
            Err(e) => {
                return Err(e);
            },
            Ok(point) => point,
        };
        check = match check.confirm(point, fact, depth) {
            Err(e) => {
                return Err(e);
            },
            Ok(next) => next,
        };
        i += 1;
    }
    check.finish()
}

/// A proof of funding that is accepted names every funding output once, each
/// confirmed `depth` times and unspent, and every contract is locked to the same hash and leaves the maker
/// time to react.
pub proof fn law_accepted_proof(
    message: ProofOfFunding,
    locktimes: Seq<Result<u16, ProtocolError>>,
    facts: Seq<FundingFacts>,
    depth: u32,
)
    requires
        proof_verdict(message, locktimes, facts, depth) is Ok,
    ensures
        ({
            let n = message.confirmed_funding_txes@.len() as int;
            let check = checked_fundings(
                message.confirmed_funding_txes@,
                message.refund_locktime,
                locktimes,
                facts,
                depth,
                n,
            );
            &&& check is Ok
            &&& check->Ok_0.seen.len() == n
            &&& check->Ok_0.seen.no_duplicates()
            &&& forall|i: int|
                0 <= i < n ==> {
                    &&& (#[trigger] facts[i]).outpoint == check->Ok_0.seen[i]
                    &&& facts[i].depth == depth
                    &&& facts[i].confirmed is Ok
                    &&& facts[i].unspent
                    &&& facts[i].hashvalue == Ok::<Hash160, ProtocolError>(
                        proof_verdict(message, locktimes, facts, depth)->Ok_0.0,
                    )
                    &&& locktimes[i] is Ok
                    &&& locktimes[i]->Ok_0 >= message.refund_locktime + MIN_CONTRACT_REACTION_TIME
                }
        }),
{
    lemma_accepted_fundings(
        message.confirmed_funding_txes@,
        message.refund_locktime,
        locktimes,
        facts,
        depth,
        message.confirmed_funding_txes@.len() as int,
    );
}

/// What holds of the first `n` funding transactions where none was rejected.
proof fn lemma_accepted_fundings(
    infos: Seq<FundingTxInfo>,
    refund_locktime: u16,
    locktimes: Seq<Result<u16, ProtocolError>>,
    facts: Seq<FundingFacts>,
    depth: u32,
    n: int,
)
    requires
        0 <= n,
        checked_fundings(infos, refund_locktime, locktimes, facts, depth, n) is Ok,
    ensures
        ({
            let check = checked_fundings(
                infos,
                refund_locktime,
                locktimes,
                facts,
                depth,
                n,
            )->Ok_0;
            &&& check.seen.len() == n
            &&& check.seen.no_duplicates()
            &&& n > 0 ==> check.hashvalue is Some
            &&& forall|i: int|
                0 <= i < n ==> {
                    &&& (#[trigger] facts[i]).outpoint == check.seen[i]
                    &&& facts[i].depth == depth
                    &&& facts[i].confirmed is Ok
                    &&& facts[i].unspent
                    &&& facts[i].hashvalue == Ok::<Hash160, ProtocolError>(check.hashvalue->0)
                    &&& locktimes[i] is Ok
                    &&& locktimes[i]->Ok_0 >= refund_locktime + MIN_CONTRACT_REACTION_TIME
                }
        }),
    decreases n,
{
    if n > 0 {
        lemma_accepted_fundings(infos, refund_locktime, locktimes, facts, depth, n - 1);
    }
}

/// A funding output is let through exactly where its contract locks for ten
/// blocks longer than the refund of the next hop, the transaction pays to the
/// script of the two keys, and the output was not named before; it is the first
/// output that pays so.
pub proof fn law_located_output_pays_to_both(
    info: FundingTxInfo,
    refund_locktime: u16,
    locktime: Result<u16, ProtocolError>,
    seen: Seq<OutPoint>,
)
    requires
        info.funding_tx.output@.len() <= u32::MAX,
    ensures
        funding_outpoint(info, refund_locktime, locktime, seen) matches Ok(point) ==> {
            &&& locktime is Ok
            &&& locktime->Ok_0 - refund_locktime >= 10
            &&& point.txid == txid_of(info.funding_tx@)
            &&& point.vout < info.funding_tx.output@.len()
            &&& info.funding_tx.output@[point.vout as int].script_pubkey@ == p2wsh_bytes(
                info.multisig_redeemscript@,
            )
            &&& forall|j: int|
                0 <= j < point.vout ==> (#[trigger] info.funding_tx.output@[j]).script_pubkey@
                    != p2wsh_bytes(info.multisig_redeemscript@)
            &&& !seen.contains(point)
        },
        locktime is Ok && locktime->Ok_0 - refund_locktime >= 10 && (exists|j: int|
            0 <= j < info.funding_tx.output@.len() && (#[trigger] info.funding_tx.output@[j]).script_pubkey@
                == p2wsh_bytes(info.multisig_redeemscript@)) && (forall|k: int|
            0 <= k < seen.len() ==> (#[trigger] seen[k]).txid != txid_of(info.funding_tx@))
            ==> funding_outpoint(info, refund_locktime, locktime, seen) is Ok,
        locktime is Ok && locktime->Ok_0 - refund_locktime < 10 ==> funding_outpoint(
            info,
            refund_locktime,
            locktime,
            seen,
        ) is Err,
{
    crate::chain::lemma_first_output_for(
        info.funding_tx.output@,
        p2wsh_bytes(info.multisig_redeemscript@),
    );
}

/// A located output is accepted exactly where it is confirmed to the depth
/// asked for, unspent, locked to the maker's keys and to the contract that the
/// maker signed, and where its contract has the hash of those before it.
pub proof fn law_funding_facts(
    facts: FundingFacts,
    point: OutPoint,
    depth: u32,
    known: Option<Hash160>,
)
    ensures
        funding_facts_verdict(facts, point, depth, known) is Ok <==> {
            &&& facts.outpoint == point
            &&& facts.depth == depth
            &&& facts.confirmed is Ok
            &&& facts.unspent
            &&& facts.is_multisig is Ok
            &&& facts.has_our_key is Ok
            &&& facts.hashlock_has_our_key is Ok
            &&& facts.matches_signed_contract is Ok
            &&& facts.hashvalue is Ok
            &&& known is None || known == Some(facts.hashvalue->Ok_0)
        },
        funding_facts_verdict(facts, point, depth, known) matches Ok(hash) ==> facts.hashvalue
            == Ok::<Hash160, ProtocolError>(hash),
        facts.outpoint == point && facts.depth == depth && facts.confirmed is Err
            ==> funding_facts_verdict(facts, point, depth, known) == Err::<Hash160, MakerError>(
            facts.confirmed->Err_0,
        ),
{
}

/// The earlier height is one of the two, and neither is below it.
pub proof fn law_earlier_height(first: Option<u32>, second: Option<u32>)
    ensures
        earlier(first, second) == first || earlier(first, second) == second,
        earlier(first, second) == earlier(second, first),
        earlier(first, second) is None <==> first is None && second is None,
        first is Some ==> earlier(first, second)->0 <= first->0,
        second is Some ==> earlier(first, second)->0 <= second->0,
{
}

/// Every funding output of an accepted proof was checked, is locked to the
/// maker's keys and to the contract that it signed, and the height that a proof
/// comes to is that of an output, before which none is known to have
/// confirmed.
pub proof fn law_accepted_proof_is_the_makers(
    message: ProofOfFunding,
    locktimes: Seq<Result<u16, ProtocolError>>,
    facts: Seq<FundingFacts>,
    depth: u32,
    i: int,
)
    requires
        facts.len() == message.confirmed_funding_txes@.len(),
        proof_verdict(message, locktimes, facts, depth) is Ok,
        0 <= i < facts.len(),
    ensures
        message.confirmed_funding_txes@.len() > 0,
        facts[i].outpoint.txid == txid_of(message.confirmed_funding_txes@[i].funding_tx@),
        facts[i].is_multisig is Ok,
        facts[i].has_our_key is Ok,
        facts[i].hashlock_has_our_key is Ok,
        facts[i].matches_signed_contract is Ok,
        locktimes[i] is Ok && locktimes[i]->Ok_0 - message.refund_locktime >= 10,
        facts[i].height matches Some(height) ==> (proof_verdict(
            message,
            locktimes,
            facts,
            depth,
        )->Ok_0.1 matches Some(least) && least <= height),
        proof_verdict(message, locktimes, facts, depth)->Ok_0.1 matches Some(least) ==> exists|
            j: int,
        |
            0 <= j < facts.len() && (#[trigger] facts[j]).height == Some(least),
{
    lemma_checked_facts(
        message.confirmed_funding_txes@,
        message.refund_locktime,
        locktimes,
        facts,
        depth,
        facts.len() as int,
    );
}

/// What the first `n` checks leave behind.
proof fn lemma_checked_facts(
    infos: Seq<FundingTxInfo>,
    refund_locktime: u16,
    locktimes: Seq<Result<u16, ProtocolError>>,
    facts: Seq<FundingFacts>,
    depth: u32,
    n: int,
)
    requires
        0 <= n <= facts.len(),
        checked_fundings(infos, refund_locktime, locktimes, facts, depth, n) is Ok,
    ensures
        ({
            let check = checked_fundings(
                infos,
                refund_locktime,
                locktimes,
                facts,
                depth,
                n,
            )->Ok_0;
            &&& forall|i: int|
                0 <= i < n ==> {
                    &&& (#[trigger] facts[i]).outpoint.txid == txid_of(infos[i].funding_tx@)
                    &&& facts[i].is_multisig is Ok
                    &&& facts[i].has_our_key is Ok
                    &&& facts[i].hashlock_has_our_key is Ok
                    &&& facts[i].matches_signed_contract is Ok
                    &&& locktimes[i] is Ok
                    &&& locktimes[i]->Ok_0 - refund_locktime >= 10
                    &&& facts[i].height is Some ==> check.confirmed_at is Some
                        && check.confirmed_at->0 <= facts[i].height->0
                }
            &&& check.confirmed_at is Some ==> exists|j: int|
                0 <= j < n && (#[trigger] facts[j]).height == check.confirmed_at
        }),
    decreases n,
{
    if n > 0 {
        lemma_checked_facts(infos, refund_locktime, locktimes, facts, depth, n - 1);
        let before = checked_fundings(
            infos,
            refund_locktime,
            locktimes,
            facts,
            depth,
            n - 1,
        )->Ok_0;
        law_earlier_height(before.confirmed_at, facts[n - 1].height);
        let check = checked_fundings(infos, refund_locktime, locktimes, facts, depth, n)->Ok_0;
        if check.confirmed_at is Some {
            if check.confirmed_at == facts[n - 1].height {
                assert(facts[n - 1].height == check.confirmed_at);
            } else {
                let j = choose|j: int|
                    0 <= j < n - 1 && (#[trigger] facts[j]).height == before.confirmed_at;
                assert(facts[j].height == check.confirmed_at);
            }
        }
    }
}

/// A proof of one funding transaction that pays to the script of two keys, with
/// facts that are all in order, is accepted, and comes to the hash and the
/// height of its contract.
pub proof fn law_proper_proof_is_accepted(
    message: ProofOfFunding,
    locktimes: Seq<Result<u16, ProtocolError>>,
    facts: Seq<FundingFacts>,
    depth: u32,
    vout: int,
)
    requires
        message.confirmed_funding_txes@.len() == 1,
        locktimes.len() == 1,
        facts.len() == 1,
        locktimes[0] is Ok,
        locktimes[0]->Ok_0 - message.refund_locktime >= 10,
        0 <= vout < message.confirmed_funding_txes@[0].funding_tx.output@.len() <= u32::MAX,
        message.confirmed_funding_txes@[0].funding_tx.output@[vout].script_pubkey@ == p2wsh_bytes(
            message.confirmed_funding_txes@[0].multisig_redeemscript@,
        ),
        forall|j: int|
            0 <= j < vout ==> (#[trigger] message.confirmed_funding_txes@[0].funding_tx.output@[j]).script_pubkey@
                != p2wsh_bytes(message.confirmed_funding_txes@[0].multisig_redeemscript@),
        facts[0].outpoint.txid == txid_of(message.confirmed_funding_txes@[0].funding_tx@),
        facts[0].outpoint.vout == vout,
        facts[0].depth == depth,
        facts[0].confirmed is Ok,
        facts[0].unspent,
        facts[0].is_multisig is Ok,
        facts[0].has_our_key is Ok,
        facts[0].hashlock_has_our_key is Ok,
        facts[0].matches_signed_contract is Ok,
        facts[0].hashvalue is Ok,
    ensures
        proof_verdict(message, locktimes, facts, depth) == Ok::<
            (Hash160, Option<u32>),
            MakerError,
        >((facts[0].hashvalue->Ok_0, facts[0].height)),
{
    let info = message.confirmed_funding_txes@[0];
    reveal_with_fuel(checked_fundings, 2);
    crate::chain::lemma_first_output_for(
        info.funding_tx.output@,
        p2wsh_bytes(info.multisig_redeemscript@),
    );
    assert(info.funding_tx.output@[vout].script_pubkey@ == p2wsh_bytes(
        info.multisig_redeemscript@,
    ));
}

/// No fewer confirmations are asked for than either number, and no more than
/// the greater one.
pub proof fn law_depth_is_the_greater(configured: u32, least: u32)
    ensures
        depth_asked(configured, least) >= configured,
        depth_asked(configured, least) >= least,
        depth_asked(configured, least) == configured || depth_asked(configured, least) == least,
{
}

} // verus!
