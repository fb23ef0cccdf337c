//! The legacy protocol's message handlers, but for the proof of funding.

use crate::chain::{copy_bytes, txid_equal, OutPoint, SecretKey, Txid};
use crate::error::{MakerError, WalletFault};
use crate::maker::handlers::{
    phase_verdict, swap_id_verdict, ConnectionState, StateModel, SwapPhase,
};
use crate::maker::legacy_verification::{
    contract_sigs_verdict, is_one_to_one, legacy_handover_verdict, verify_contract_sigs,
    verify_legacy_privkey_handover, SignatureCheck,
};
use crate::maker::swapcoin::{
    incoming_models, outgoing_models, text_model, IncomingModel, IncomingSwapCoin, OutgoingModel,
    OutgoingSwapCoin,
};
use crate::maker::watches::{
    outgoing_watches, watch_models, watch_outgoing, WatchRequest,
};
use crate::primitives::{add_to_secret, compute_txid, tweaked_secret, txid_of};
use crate::protocol::common_messages::{PrivateKeyHandover, SwapPrivkey};
use crate::protocol::error::ProtocolError;
use crate::protocol::legacy_messages::{
    ContractTxInfoForRecvr, ContractTxInfoForSender, ReqContractSigsForRecvr,
    ReqContractSigsForSender, RespContractSigsForRecvr, RespContractSigsForRecvrAndSender,
    RespContractSigsForSender,
};
use vstd::prelude::*;
use vstd::string::StrSliceExecFns;

verus! {

/// What a request for the maker's signatures as receiver is rejected for
/// before its contracts are looked at: the contracts that the maker signs must
/// use the agreed lock time.
pub open spec fn sender_terms_verdict(state: StateModel, req: ReqContractSigsForSender) -> Result<
    (),
    MakerError,
> {
    if phase_verdict(
        state.phase,
        SwapPhase::AwaitingContractData,
        SwapPhase::AwaitingSignaturesOrPreimage,
    ) is Err {
        Err(MakerError::UnexpectedPhase(state.phase))
    } else if swap_id_verdict(state.swap_id, req.id@) is Err {
        Err(MakerError::SwapIdMismatch)
    } else if req.locktime != state.timelock {
        Err(
            MakerError::General("Sender contract locktime does not match the negotiated timelock"),
        )
    } else {
        Ok(())
    }
}

/// Checks a request for the maker's signatures as receiver against the agreed
/// terms.
pub fn check_sender_terms(state: &ConnectionState, req: &ReqContractSigsForSender) -> (r: Result<
    (),
    MakerError,
>)
    ensures
        r == sender_terms_verdict(state@, *req),
{
    match state.expect_phase(
        SwapPhase::AwaitingContractData,
        SwapPhase::AwaitingSignaturesOrPreimage,
    ) {
        Err(e) => {
            return Err(e);
        },
        Ok(_) => {},
    }
    match state.check_swap_id(req.id.as_str()) {
        Err(e) => {
            return Err(e);
        },
        Ok(_) => {},
    }
    if req.locktime as u32 != state.timelock {
        return Err(
            MakerError::General("Sender contract locktime does not match the negotiated timelock"),
        );
    }
    Ok(())
}

/// The funding output that a contract transaction spends, with the script of
/// the contract.
#[derive(Debug)]
pub struct ContractBinding {
    /// The funding output.
    pub prevout: OutPoint,
    /// The script of the contract output.
    pub script_pubkey: Vec<u8>,
}

/// The funding outputs of verified contracts, each bound to its contract, so
/// that no other contract is accepted for them later.
pub fn contract_bindings(txs_info: &Vec<ContractTxInfoForSender>) -> (r: Vec<ContractBinding>)
    requires
        forall|i: int|
            0 <= i < txs_info@.len() ==> is_one_to_one(
                (#[trigger] txs_info@[i]).senders_contract_tx,
            ),
    ensures
        r@.len() == txs_info@.len(),
        forall|i: int|
            0 <= i < r@.len() ==> {
                let tx = txs_info@[i].senders_contract_tx;
                &&& (#[trigger] r@[i]).prevout == tx.input@[0].previous_output
                &&& r@[i].script_pubkey@ == tx.output@[0].script_pubkey@
            },
{
    let mut out: Vec<ContractBinding> = Vec::new();
    let mut i: usize = 0;
    while i < txs_info.len()
        invariant
            i <= txs_info.len(),
            forall|j: int|
                0 <= j < txs_info@.len() ==> is_one_to_one(
                    (#[trigger] txs_info@[j]).senders_contract_tx,
                ),
            out@.len() == i,
            forall|j: int|
                0 <= j < i ==> {
                    let tx = txs_info@[j].senders_contract_tx;
                    &&& (#[trigger] out@[j]).prevout == tx.input@[0].previous_output
                    &&& out@[j].script_pubkey@ == tx.output@[0].script_pubkey@
                },
        decreases txs_info.len() - i,
    {
        let tx = &txs_info[i].senders_contract_tx;
        out.push(
            ContractBinding {
                prevout: tx.input[0].previous_output,
                script_pubkey: copy_bytes(tx.output[0].script_pubkey.as_slice()),
            },
        );
        i += 1;
    }
    out
}

/// The signatures for the first `n` sender contracts.
pub open spec fn sender_signatures(
    tweakable_privkey: SecretKey,
    txs_info: Seq<ContractTxInfoForSender>,
    signed: Seq<Result<Vec<u8>, ProtocolError>>,
    n: int,
) -> Result<Seq<Vec<u8>>, MakerError>
    decreases n,
{
    if n <= 0 {
        Ok(seq![])
    } else {
        match sender_signatures(tweakable_privkey, txs_info, signed, n - 1) {
            Err(e) => Err(e),
            Ok(sigs) => if tweaked_secret(tweakable_privkey, txs_info[n - 1].multisig_nonce)
                is None {
                Err(MakerError::General("Failed to derive multisig privkey"))
            } else {
                match signed[n - 1] {
                    Err(_) => Err(MakerError::General("Failed to sign contract transaction")),
                    Ok(sig) => Ok(sigs.push(sig)),
                }
            },
        }
    }
}

/// Once a contract cannot be signed, the request fails.
proof fn lemma_first_unsigned(
    tweakable_privkey: SecretKey,
    txs_info: Seq<ContractTxInfoForSender>,
    signed: Seq<Result<Vec<u8>, ProtocolError>>,
    k: int,
    n: int,
)
    requires
        0 <= k <= n,
        sender_signatures(tweakable_privkey, txs_info, signed, k) is Err,
    ensures
        sender_signatures(tweakable_privkey, txs_info, signed, n) == sender_signatures(
            tweakable_privkey,
            txs_info,
            signed,
            k,
        ),
    decreases n - k,
{
    if k < n {
        lemma_first_unsigned(tweakable_privkey, txs_info, signed, k, n - 1);
    }
}

/// The key that signs a sender contract: the maker's tweakable key plus the
/// nonce.
pub fn sender_signing_key(tweakable_privkey: &SecretKey, info: &ContractTxInfoForSender) -> (r:
    Result<SecretKey, MakerError>)
    ensures
        r == match tweaked_secret(*tweakable_privkey, info.multisig_nonce) {
            Some(key) => Ok::<SecretKey, MakerError>(key),
            None => Err(MakerError::General("Failed to derive multisig privkey")),
        },
{
    match add_to_secret(tweakable_privkey, &info.multisig_nonce) {
        Some(key) => Ok(key),
        None => Err(MakerError::General("Failed to derive multisig privkey")),
    }
}

/// The answer to a request for the maker's signatures as receiver. `signed`
/// holds, for each contract, its signature with the maker's key.
#[verifier::loop_isolation(false)]
pub fn answer_sender_request(
    req: ReqContractSigsForSender,
    tweakable_privkey: &SecretKey,
    signed: Vec<Result<Vec<u8>, ProtocolError>>,
) -> (r: Result<RespContractSigsForSender, MakerError>)
    requires
        signed@.len() == req.txs_info@.len(),
    ensures
        match (r, sender_signatures(
            *tweakable_privkey,
            req.txs_info@,
            signed@,
            req.txs_info@.len() as int,
        )) {
            (Ok(response), Ok(sigs)) => response.id@ == req.id@ && response.sigs@ == sigs,
            (Err(e), Err(expected)) => e == expected,
            _ => false,
        },
{
    let ghost all = signed@;
    let ghost n = all.len() as int;
    let mut remaining = signed;
    let mut sigs: Vec<Vec<u8>> = Vec::new();
    let mut i: usize = 0;
    assert(all.subrange(0, n) =~= all);
    assert(sigs@ =~= seq![]);
    while i < req.txs_info.len()
        invariant
            i <= n,
            n == req.txs_info@.len(),
            all.len() == n,
            remaining@ == all.subrange(i as int, n),
            sender_signatures(*tweakable_privkey, req.txs_info@, all, i as int) == Ok::<
                Seq<Vec<u8>>,
                MakerError,
            >(sigs@),
        decreases n - i,
    {
        let next = remaining.remove(0);
        proof {
            assert(next == all[i as int]);
            assert(remaining@ =~= all.subrange(i + 1, n));
            if sender_signatures(*tweakable_privkey, req.txs_info@, all, i + 1) is Err {
                lemma_first_unsigned(*tweakable_privkey, req.txs_info@, all, i + 1, n);
            }
        }
        match sender_signing_key(tweakable_privkey, &req.txs_info[i]) {
            Err(e) => {
                return Err(e);
            },
            Ok(_) => {},
        }
        match next {
            Err(_) => {
                return Err(MakerError::General("Failed to sign contract transaction"));
            },
            Ok(sig) => {
                sigs.push(sig);
            },
        }
        i += 1;
    }
    Ok(RespContractSigsForSender { id: req.id, sigs })
}

/// What the taker's contract signatures are rejected for before any of them is
/// looked at.
pub open spec fn signature_terms_verdict(
    state: ConnectionState,
    resp: RespContractSigsForRecvrAndSender,
) -> Result<(), MakerError> {
    if state.phase != SwapPhase::AwaitingSignaturesOrPreimage {
        Err(MakerError::UnexpectedPhase(state.phase))
    } else if swap_id_verdict(text_model(state.swap_id), resp.id@) is Err {
        Err(MakerError::SwapIdMismatch)
    } else if resp.receivers_sigs@.len() != state.incoming_swapcoins@.len() {
        Err(MakerError::General("Invalid number of receiver signatures"))
    } else if resp.senders_sigs@.len() != state.outgoing_swapcoins@.len() {
        Err(MakerError::General("Invalid number of sender signatures"))
    } else {
        Ok(())
    }
}

/// Checks the phase, the swap and the number of the taker's contract
/// signatures.
pub fn check_signature_terms(
    state: &ConnectionState,
    resp: &RespContractSigsForRecvrAndSender,
) -> (r: Result<(), MakerError>)
    ensures
        r == signature_terms_verdict(*state, *resp),
{
    match state.expect_phase(
        SwapPhase::AwaitingSignaturesOrPreimage,
        SwapPhase::AwaitingSignaturesOrPreimage,
    ) {
        Err(e) => {
            return Err(e);
        },
        Ok(_) => {},
    }
    match state.check_swap_id(resp.id.as_str()) {
        Err(e) => {
            return Err(e);
        },
        Ok(_) => {},
    }
    if resp.receivers_sigs.len() != state.incoming_swapcoins.len() {
        return Err(MakerError::General("Invalid number of receiver signatures"));
    }
    if resp.senders_sigs.len() != state.outgoing_swapcoins.len() {
        return Err(MakerError::General("Invalid number of sender signatures"));
    }
    Ok(())
}

/// What the taker's contract signatures are rejected for.
pub open spec fn signatures_verdict(
    state: ConnectionState,
    resp: RespContractSigsForRecvrAndSender,
    receivers_checks: Seq<SignatureCheck>,
    senders_checks: Seq<SignatureCheck>,
) -> Result<(), MakerError> {
    match signature_terms_verdict(state, resp) {
        Err(e) => Err(e),
        Ok(_) => contract_sigs_verdict(
            resp.receivers_sigs@,
            resp.senders_sigs@,
            receivers_checks,
            senders_checks,
            state.incoming_swapcoins@,
            state.outgoing_swapcoins@,
        ),
    }
}

/// Incoming coins that carry the other party's signatures.
pub open spec fn signed_incoming(coins: Seq<IncomingModel>, sigs: Seq<Vec<u8>>) -> Seq<
    IncomingModel,
> {
    Seq::new(
        coins.len(),
        |i: int| IncomingModel { others_contract_sig: Some(sigs[i]@), ..coins[i] },
    )
}

/// Outgoing coins that carry the other party's signatures.
pub open spec fn signed_outgoing(coins: Seq<OutgoingModel>, sigs: Seq<Vec<u8>>) -> Seq<
    OutgoingModel,
> {
    Seq::new(
        coins.len(),
        |i: int| OutgoingModel { others_contract_sig: Some(sigs[i]@), ..coins[i] },
    )
}

/// The state with the other party's signatures on its coins.
pub open spec fn with_signatures(
    state: StateModel,
    receivers_sigs: Seq<Vec<u8>>,
    senders_sigs: Seq<Vec<u8>>,
) -> StateModel {
    StateModel {
        incoming_swapcoins: signed_incoming(state.incoming_swapcoins, receivers_sigs),
        outgoing_swapcoins: signed_outgoing(state.outgoing_swapcoins, senders_sigs),
        ..state
    }
}

/// Checks the taker's contract signatures and, where all of them are valid,
/// stores each on its coin. `receivers_checks` and `senders_checks` hold what
/// came of holding each signature against its coin.
pub fn take_contract_sigs(
    state: &mut ConnectionState,
    resp: &RespContractSigsForRecvrAndSender,
    receivers_checks: &Vec<SignatureCheck>,
    senders_checks: &Vec<SignatureCheck>,
) -> (r: Result<(), MakerError>)
    ensures
        r == signatures_verdict(*old(state), *resp, receivers_checks@, senders_checks@),
        r is Err ==> final(state)@ == old(state)@,
        r is Ok ==> final(state)@ == with_signatures(
            old(state)@,
            resp.receivers_sigs@,
            resp.senders_sigs@,
        ),
{
    match check_signature_terms(state, resp) {
        Err(e) => {
            return Err(e);
        },
        Ok(_) => {},
    }
    let checked = match verify_contract_sigs(
        &resp.receivers_sigs,
        &resp.senders_sigs,
        receivers_checks,
        senders_checks,
        &state.incoming_swapcoins,
        &state.outgoing_swapcoins,
    ) {
        Err(e) => {
            return Err(e);
        },
        Ok(checked) => checked,
    };
    sign_incoming(&mut state.incoming_swapcoins, &resp.receivers_sigs);
    sign_outgoing(&mut state.outgoing_swapcoins, &resp.senders_sigs);
    Ok(checked)
}

/// Stores signatures on incoming coins.
fn sign_incoming(coins: &mut Vec<IncomingSwapCoin>, sigs: &Vec<Vec<u8>>)
    requires
        sigs@.len() == old(coins)@.len(),
    ensures
        incoming_models(final(coins)@) == signed_incoming(incoming_models(old(coins)@), sigs@),
{
    let ghost before = coins@;
    let n = coins.len();
    let mut i: usize = 0;
    while i < n
        invariant
            n == coins@.len(),
            n == before.len(),
            n == sigs@.len(),
            i <= n,
            forall|j: int|
                0 <= j < i ==> (#[trigger] coins@[j])@ == (IncomingModel {
                    others_contract_sig: Some(sigs@[j]@),
                    ..before[j]@
                }),
            forall|j: int| i <= j < n ==> (#[trigger] coins@[j]) == before[j],
        decreases n - i,
    {
        coins[i].others_contract_sig = Some(copy_bytes(sigs[i].as_slice()));
        i += 1;
    }
    assert(incoming_models(coins@) =~= signed_incoming(incoming_models(before), sigs@));
}

/// Stores signatures on outgoing coins.
fn sign_outgoing(coins: &mut Vec<OutgoingSwapCoin>, sigs: &Vec<Vec<u8>>)
    requires
        sigs@.len() == old(coins)@.len(),
    ensures
        outgoing_models(final(coins)@) == signed_outgoing(outgoing_models(old(coins)@), sigs@),
{
    let ghost before = coins@;
    let n = coins.len();
    let mut i: usize = 0;
    while i < n
        invariant
            n == coins@.len(),
            n == before.len(),
            n == sigs@.len(),
            i <= n,
            forall|j: int|
                0 <= j < i ==> (#[trigger] coins@[j])@ == (OutgoingModel {
                    others_contract_sig: Some(sigs@[j]@),
                    ..before[j]@
                }),
            forall|j: int| i <= j < n ==> (#[trigger] coins@[j]) == before[j],
        decreases n - i,
    {
        coins[i].others_contract_sig = Some(copy_bytes(sigs[i].as_slice()));
        i += 1;
    }
    assert(outgoing_models(coins@) =~= signed_outgoing(outgoing_models(before), sigs@));
}

/// A step of committing the maker's funding. The steps are carried out in
/// order, and the first that fails ends the swap.
#[derive(Debug, Clone, Copy, PartialEq, Eq, Structural)]
pub enum FundingStep {
    /// Watch the output at this position of the list of watch requests.
    Watch(usize),
    /// Fail where the watchtower is not alive.
    EnsureWatchtower,
    /// Save the incoming coin at this position.
    SaveIncoming(usize),
    /// Save the outgoing coin at this position.
    SaveOutgoing(usize),
    /// Broadcast the funding transaction at this position.
    Broadcast(usize),
}

/// The step at a position of the plan for `watches` outputs, `incoming` and
/// `outgoing` coins: first the watches, then the watchtower, the coins, and
/// last the funding transactions.
pub open spec fn funding_step(watches: nat, incoming: nat, outgoing: nat, i: int) -> FundingStep {
    if i < watches {
        FundingStep::Watch(i as usize)
    } else if i == watches {
        FundingStep::EnsureWatchtower
    } else if i <= watches + incoming {
        FundingStep::SaveIncoming((i - watches - 1) as usize)
    } else if i <= watches + incoming + outgoing {
        FundingStep::SaveOutgoing((i - watches - incoming - 1) as usize)
    } else {
        FundingStep::Broadcast((i - watches - incoming - outgoing - 1) as usize)
    }
}

/// The whole plan.
pub open spec fn funding_steps(watches: nat, incoming: nat, outgoing: nat, txes: nat) -> Seq<
    FundingStep,
> {
    Seq::new(
        watches + 1 + incoming + outgoing + txes,
        |i: int| funding_step(watches, incoming, outgoing, i),
    )
}

/// The outputs to watch and the steps by which the maker commits its funding.
pub fn plan_funding(state: &ConnectionState) -> (r: (Vec<WatchRequest>, Vec<FundingStep>))
    ensures
        watch_models(r.0@) == outgoing_watches(state@.outgoing_swapcoins),
        r.1@ == funding_steps(
            r.0@.len(),
            state.incoming_swapcoins@.len(),
            state.outgoing_swapcoins@.len(),
            state.pending_funding_txes@.len(),
        ),
{
    let watches = watch_outgoing(&state.outgoing_swapcoins);
    let ghost w = watches@.len();
    let ghost a = state.incoming_swapcoins@.len();
    let ghost b = state.outgoing_swapcoins@.len();
    let ghost c = state.pending_funding_txes@.len();
    let ghost plan = funding_steps(w, a, b, c);
    let mut steps: Vec<FundingStep> = Vec::new();
    let mut i: usize = 0;
    while i < watches.len()
        invariant
            i <= watches.len(),
            w == watches@.len(),
            plan == funding_steps(w, a, b, c),
            steps@ == plan.subrange(0, i as int),
        decreases watches.len() - i,
    {
        steps.push(FundingStep::Watch(i));
        i += 1;
        assert(steps@ =~= plan.subrange(0, i as int));
    }
    steps.push(FundingStep::EnsureWatchtower);
    assert(steps@ =~= plan.subrange(0, (w + 1) as int));
    let mut k: usize = 0;
    while k < state.incoming_swapcoins.len()
        invariant
            k <= state.incoming_swapcoins.len(),
            a == state.incoming_swapcoins@.len(),
            plan == funding_steps(w, a, b, c),
            steps@ == plan.subrange(0, w + 1 + k),
        decreases state.incoming_swapcoins.len() - k,
    {
        steps.push(FundingStep::SaveIncoming(k));
        k += 1;
        assert(steps@ =~= plan.subrange(0, w + 1 + k));
    }
    let mut m: usize = 0;
    while m < state.outgoing_swapcoins.len()
        invariant
            m <= state.outgoing_swapcoins.len(),
            b == state.outgoing_swapcoins@.len(),
            plan == funding_steps(w, a, b, c),
            steps@ == plan.subrange(0, w + 1 + a + m),
        decreases state.outgoing_swapcoins.len() - m,
    {
        steps.push(FundingStep::SaveOutgoing(m));
        m += 1;
        assert(steps@ =~= plan.subrange(0, w + 1 + a + m));
    }
    let mut p: usize = 0;
    while p < state.pending_funding_txes.len()
        invariant
            p <= state.pending_funding_txes.len(),
            c == state.pending_funding_txes@.len(),
            plan == funding_steps(w, a, b, c),
            steps@ == plan.subrange(0, w + 1 + a + b + p),
        decreases state.pending_funding_txes.len() - p,
    {
        steps.push(FundingStep::Broadcast(p));
        p += 1;
        assert(steps@ =~= plan.subrange(0, w + 1 + a + b + p));
    }
    assert(plan.subrange(0, plan.len() as int) =~= plan);
    (watches, steps)
}

/// Nothing is broadcast before every watch is armed, the watchtower is alive
/// and every coin is saved.
pub proof fn law_broadcast_comes_last(
    watches: nat,
    incoming: nat,
    outgoing: nat,
    txes: nat,
    i: int,
    j: int,
)
    requires
        0 <= i < funding_steps(watches, incoming, outgoing, txes).len(),
        0 <= j < funding_steps(watches, incoming, outgoing, txes).len(),
        funding_steps(watches, incoming, outgoing, txes)[i] is Broadcast,
        !(funding_steps(watches, incoming, outgoing, txes)[j] is Broadcast),
    ensures
        j < i,
{
}

/// Whether a text contains another at a position.
pub open spec fn occurs_at(text: Seq<char>, part: Seq<char>, at: int) -> bool {
    0 <= at && at + part.len() <= text.len() && text.subrange(at, at + part.len()) == part
}

/// Whether a text contains another.
pub open spec fn occurs_in(text: Seq<char>, part: Seq<char>) -> bool {
    exists|at: int| occurs_at(text, part, at)
}

/// A text with its ASCII letters in lower case.
pub open spec fn lower_case(text: Seq<char>) -> Seq<char> {
    text.map_values(|c: char| lower_char(c))
}

/// An ASCII letter in lower case; any other character as it is.
pub open spec fn lower_char(c: char) -> char {
    if 'A' <= c <= 'Z' {
        (c as u32 + 32) as char
    } else {
        c
    }
}

/// The characters of a text.
fn chars_of(text: &str) -> (r: Vec<char>)
    ensures
        r@ == text@,
{
    let n = text.unicode_len();
    let mut out: Vec<char> = Vec::new();
    let mut i: usize = 0;
    while i < n
        invariant
            n == text@.len(),
            i <= n,
            out@ == text@.subrange(0, i as int),
        decreases n - i,
    {
        out.push(text.get_char(i));
        i += 1;
        assert(out@ =~= text@.subrange(0, i as int));
    }
    assert(text@.subrange(0, i as int) =~= text@);
    out
}

/// An ASCII letter in lower case.
fn to_lower(c: char) -> (r: char)
    ensures
        r == lower_char(c),
{
    if 'A' <= c && c <= 'Z' {
        ((c as u8) + 32) as char
    } else {
        c
    }
}

/// Whether a text in lower case contains another.
fn lower_contains(text: &str, part: &str) -> (r: bool)
    ensures
        r == occurs_in(lower_case(text@), part@),
{
    let chars = chars_of(text);
    let mut lowered: Vec<char> = Vec::new();
    let mut i: usize = 0;
    while i < chars.len()
        invariant
            i <= chars.len(),
            chars@ == text@,
            lowered@ == lower_case(text@).subrange(0, i as int),
        decreases chars.len() - i,
    {
        lowered.push(to_lower(chars[i]));
        i += 1;
        assert(lowered@ =~= lower_case(text@).subrange(0, i as int));
    }
    assert(lowered@ =~= lower_case(text@));
    let wanted = chars_of(part);
    if wanted.len() > lowered.len() {
        assert forall|at: int| !occurs_at(lower_case(text@), part@, at) by {}
        return false;
    }
    let last = lowered.len() - wanted.len();
    let mut at: usize = 0;
    loop
        invariant
            lowered@ == lower_case(text@),
            wanted@ == part@,
            last == lowered@.len() - wanted@.len(),
            at <= last,
            forall|k: int| 0 <= k < at ==> !#[trigger] occurs_at(lower_case(text@), part@, k),
        decreases last - at,
    {
        let mut k: usize = 0;
        let mut same = true;
        while k < wanted.len() && same
            invariant
                k <= wanted.len(),
                at + wanted@.len() <= lowered@.len(),
                lowered@.len() == lowered.len(),
                same ==> forall|j: int| 0 <= j < k ==> lowered@[at + j] == wanted@[j],
                !same ==> exists|j: int|
                    0 <= j < wanted@.len() && lowered@[at + j] != #[trigger] wanted@[j],
            decreases wanted.len() - k, same as nat,
        {
            if lowered[at + k] != wanted[k] {
                assert(lowered@[at + k] != wanted@[k as int]);
                same = false;
            } else {
                k += 1;
            }
        }
        if same {
            assert(lowered@.subrange(at as int, at + wanted@.len()) =~= wanted@);
            assert(occurs_at(lower_case(text@), part@, at as int));
            return true;
        }
        proof {
            let j = choose|j: int|
                0 <= j < wanted@.len() && lowered@[at + j] != #[trigger] wanted@[j];
            assert(lowered@.subrange(at as int, at + wanted@.len())[j] == lowered@[at + j]);
            assert(!occurs_at(lower_case(text@), part@, at as int));
        }
        if at == last {
            assert forall|k: int| !occurs_at(lower_case(text@), part@, k) by {}
            return false;
        }
        at += 1;
    }
}

/// The code by which a node reports a transaction that is already known.
pub const ALREADY_IN_CHAIN: i32 = -27;

/// Whether a node's error means that the transaction was broadcast before.
pub open spec fn reports_known(code: i32, message: Seq<char>) -> bool {
    ||| code == ALREADY_IN_CHAIN
    ||| occurs_in(lower_case(message), "already in block chain"@)
    ||| occurs_in(lower_case(message), "already in mempool"@)
    ||| occurs_in(lower_case(message), "already in utxo set"@)
    ||| occurs_in(lower_case(message), "txn-already-in-mempool"@)
}

/// Whether a failed broadcast is due to an earlier one.
pub open spec fn already_broadcast(error: MakerError, known: bool) -> bool {
    known || match error {
        MakerError::Wallet(WalletFault::Rpc { code, message }) => reports_known(code, message@),
        _ => false,
    }
}

/// What a broadcast with this outcome comes to.
pub open spec fn settled(outcome: Result<(), MakerError>, known: bool) -> Result<(), MakerError> {
    match outcome {
        Ok(_) => Ok(()),
        Err(e) => if already_broadcast(e, known) {
            Ok(())
        } else {
            Err(e)
        },
    }
}

/// What a broadcast comes to: an error that only says that the transaction is
/// known already is none. `known` tells whether the chain backend finds the
/// transaction; it is asked where the error does not say so itself.
pub fn settle_broadcast(outcome: Result<(), MakerError>, known: bool) -> (r: Result<
    (),
    MakerError,
>)
    ensures
        r == settled(outcome, known),
{
    match outcome {
        Ok(_) => Ok(()),
        Err(e) => {
            if is_rebroadcast(&e) || known {
                Ok(())
            } else {
                Err(e)
            }
        },
    }
}

/// Whether an error itself says that the transaction was broadcast before.
pub fn is_rebroadcast(error: &MakerError) -> (r: bool)
    ensures
        r == already_broadcast(*error, false),
{
    match error {
        MakerError::Wallet(WalletFault::Rpc { code, message }) => {
            let text = message.as_str();
            *code == ALREADY_IN_CHAIN || lower_contains(text, "already in block chain")
                || lower_contains(text, "already in mempool") || lower_contains(
                text,
                "already in utxo set",
            ) || lower_contains(text, "txn-already-in-mempool")
        },
        _ => false,
    }
}

/// The state once the maker's funding is on its way.
pub open spec fn funded(state: StateModel) -> StateModel {
    StateModel {
        pending_funding_txes: seq![],
        funding_broadcast: true,
        phase: SwapPhase::AwaitingPrivateKeyHandover,
        ..state
    }
}

/// Records that the maker's funding is on its way.
pub fn finish_funding(state: &mut ConnectionState)
    ensures
        final(state)@ == funded(old(state)@),
{
    state.pending_funding_txes = Vec::new();
    state.funding_broadcast = true;
    state.phase = SwapPhase::AwaitingPrivateKeyHandover;
    assert(state@.pending_funding_txes =~= seq![]);
}

/// What a receiver's contract at `i` is rejected for. `coin` is the maker's
/// outgoing coin with the script, where there is one.
pub open spec fn receiver_contract_verdict(
    info: ContractTxInfoForRecvr,
    coin: Option<OutgoingSwapCoin>,
    i: usize,
) -> Result<SecretKey, MakerError> {
    if !is_one_to_one(info.contract_tx) {
        Err(
            MakerError::Structure {
                what: "Receiver contract tx {} has invalid structure: {} inputs, {} outputs",
                index: i,
                inputs: info.contract_tx.input@.len() as usize,
                outputs: info.contract_tx.output@.len() as usize,
            },
        )
    } else {
        match coin {
            None => Err(MakerError::General("Could not find matching outgoing swapcoin")),
            Some(coin) => if coin.funding_tx is Some && txid_of(coin.funding_tx->0@)
                != info.contract_tx.input@[0].previous_output.txid {
                Err(
                    MakerError::ItemTxid {
                        what: "Receiver contract tx {} spends from {} but expected {}",
                        index: i,
                        found: info.contract_tx.input@[0].previous_output.txid,
                        expected: txid_of(coin.funding_tx->0@),
                    },
                )
            } else {
                match coin.my_privkey {
                    None => Err(MakerError::General("No private key in outgoing swapcoin")),
                    Some(key) => Ok(key),
                }
            },
        }
    }
}

/// Checks a receiver's contract and returns the key to sign it with: it must
/// spend from the maker's own funding transaction.
pub fn check_receiver_contract(
    info: &ContractTxInfoForRecvr,
    coin: &Option<OutgoingSwapCoin>,
    i: usize,
) -> (r: Result<SecretKey, MakerError>)
    ensures
        r == receiver_contract_verdict(*info, *coin, i),
{
    let inputs = info.contract_tx.input.len();
    let outputs = info.contract_tx.output.len();
    if inputs != 1 || outputs != 1 {
        return Err(
            MakerError::Structure {
                what: "Receiver contract tx {} has invalid structure: {} inputs, {} outputs",
                index: i,
                inputs,
                outputs,
            },
        );
    }
    match coin {
        None => Err(MakerError::General("Could not find matching outgoing swapcoin")),
        Some(coin) => {
            if let Some(funding_tx) = &coin.funding_tx {
                let expected: Txid = compute_txid(funding_tx);
                if !txid_equal(&expected, &info.contract_tx.input[0].previous_output.txid) {
                    return Err(
                        MakerError::ItemTxid {
                            what: "Receiver contract tx {} spends from {} but expected {}",
                            index: i,
                            found: info.contract_tx.input[0].previous_output.txid,
                            expected,
                        },
                    );
                }
            }
            match coin.my_privkey {
                None => Err(MakerError::General("No private key in outgoing swapcoin")),
                Some(key) => Ok(key),
            }
        },
    }
}

/// The signatures for the first `n` receiver contracts.
pub open spec fn receiver_signatures(
    txs: Seq<ContractTxInfoForRecvr>,
    coins: Seq<Option<OutgoingSwapCoin>>,
    signed: Seq<Result<Vec<u8>, ProtocolError>>,
    n: int,
) -> Result<Seq<Vec<u8>>, MakerError>
    decreases n,
{
    if n <= 0 {
        Ok(seq![])
    } else {
        match receiver_signatures(txs, coins, signed, n - 1) {
            Err(e) => Err(e),
            Ok(sigs) => match receiver_contract_verdict(txs[n - 1], coins[n - 1], (n - 1) as usize) {
                Err(e) => Err(e),
                Ok(_) => match signed[n - 1] {
                    Err(_) => Err(MakerError::General("Failed to sign receiver contract tx")),
                    Ok(sig) => Ok(sigs.push(sig)),
                },
            },
        }
    }
}

/// Once a contract cannot be signed, the request fails.
proof fn lemma_first_unsigned_receiver(
    txs: Seq<ContractTxInfoForRecvr>,
    coins: Seq<Option<OutgoingSwapCoin>>,
    signed: Seq<Result<Vec<u8>, ProtocolError>>,
    k: int,
    n: int,
)
    requires
        0 <= k <= n,
        receiver_signatures(txs, coins, signed, k) is Err,
    ensures
        receiver_signatures(txs, coins, signed, n) == receiver_signatures(txs, coins, signed, k),
    decreases n - k,
{
    if k < n {
        lemma_first_unsigned_receiver(txs, coins, signed, k, n - 1);
    }
}

/// What a request for the maker's signatures as sender comes to.
pub open spec fn receiver_request_verdict(
    state: StateModel,
    req: ReqContractSigsForRecvr,
    coins: Seq<Option<OutgoingSwapCoin>>,
    signed: Seq<Result<Vec<u8>, ProtocolError>>,
) -> Result<Seq<Vec<u8>>, MakerError> {
    if state.phase != SwapPhase::AwaitingPrivateKeyHandover {
        Err(MakerError::UnexpectedPhase(state.phase))
    } else if swap_id_verdict(state.swap_id, req.id@) is Err {
        Err(MakerError::SwapIdMismatch)
    } else {
        receiver_signatures(req.txs@, coins, signed, req.txs@.len() as int)
    }
}

/// Processes a request for the maker's signatures as sender. `coins` holds,
/// for each contract, the maker's outgoing coin with its script, and `signed`
/// the signature with that coin's key.
#[verifier::loop_isolation(false)]
pub fn process_req_contract_sigs_for_recvr(
    state: &ConnectionState,
    req: ReqContractSigsForRecvr,
    coins: &Vec<Option<OutgoingSwapCoin>>,
    signed: Vec<Result<Vec<u8>, ProtocolError>>,
) -> (r: Result<RespContractSigsForRecvr, MakerError>)
    requires
        coins@.len() == req.txs@.len(),
        signed@.len() == req.txs@.len(),
    ensures
        match (r, receiver_request_verdict(state@, req, coins@, signed@)) {
            (Ok(response), Ok(sigs)) => response.id@ == req.id@ && response.sigs@ == sigs,
            (Err(e), Err(expected)) => e == expected,
            _ => false,
        },
{
    match state.expect_phase(
        SwapPhase::AwaitingPrivateKeyHandover,
        SwapPhase::AwaitingPrivateKeyHandover,
    ) {
        Err(e) => {
            return Err(e);
        },
        Ok(_) => {},
    }
    match state.check_swap_id(req.id.as_str()) {
        Err(e) => {
            return Err(e);
        },
        Ok(_) => {},
    }
    let ghost all = signed@;
    let ghost n = all.len() as int;
    let mut remaining = signed;
    let mut sigs: Vec<Vec<u8>> = Vec::new();
    let mut i: usize = 0;
    assert(all.subrange(0, n) =~= all);
    assert(sigs@ =~= seq![]);
    while i < req.txs.len()
        invariant
            i <= n,
            n == req.txs@.len(),
            all.len() == n,
            remaining@ == all.subrange(i as int, n),
            receiver_signatures(req.txs@, coins@, all, i as int) == Ok::<Seq<Vec<u8>>, MakerError>(
                sigs@,
            ),
        decreases n - i,
    {
        let next = remaining.remove(0);
        proof {
            assert(next == all[i as int]);
            assert(remaining@ =~= all.subrange(i + 1, n));
            if receiver_signatures(req.txs@, coins@, all, i + 1) is Err {
                lemma_first_unsigned_receiver(req.txs@, coins@, all, i + 1, n);
            }
        }
        match check_receiver_contract(&req.txs[i], &coins[i], i) {
            Err(e) => {
                return Err(e);
            },
            Ok(_) => {},
        }
        match next {
            Err(_) => {
                return Err(MakerError::General("Failed to sign receiver contract tx"));
            },
            Ok(sig) => {
                sigs.push(sig);
            },
        }
        i += 1;
    }
    Ok(RespContractSigsForRecvr { id: req.id, sigs })
}

/// Whether every outgoing coin has the maker's key.
pub open spec fn all_keys_known(coins: Seq<OutgoingSwapCoin>) -> bool {
    forall|i: int| 0 <= i < coins.len() ==> (#[trigger] coins[i]).my_privkey is Some
}

/// What a legacy key handover is rejected for.
pub open spec fn legacy_completion_verdict(
    state: ConnectionState,
    handover: PrivateKeyHandover,
) -> Result<(), MakerError> {
    if state.phase != SwapPhase::AwaitingPrivateKeyHandover {
        Err(MakerError::UnexpectedPhase(state.phase))
    } else if swap_id_verdict(text_model(state.swap_id), handover.id@) is Err {
        Err(MakerError::SwapIdMismatch)
    } else if state.outgoing_swapcoins@.len() == 0 {
        Err(MakerError::General("No outgoing swapcoin found"))
    } else if legacy_handover_verdict(handover.privkeys@, state.incoming_swapcoins@) is Err {
        legacy_handover_verdict(handover.privkeys@, state.incoming_swapcoins@)
    } else if !all_keys_known(state.outgoing_swapcoins@) {
        Err(MakerError::General("No private key in outgoing swapcoin"))
    } else {
        Ok(())
    }
}

/// Incoming coins that carry the other party's keys.
pub open spec fn unlocked_incoming(coins: Seq<IncomingModel>, keys: Seq<SwapPrivkey>) -> Seq<
    IncomingModel,
> {
    Seq::new(
        coins.len(),
        |i: int|
            if i < keys.len() {
                IncomingModel { other_privkey: Some(keys[i].key), ..coins[i] }
            } else {
                coins[i]
            },
    )
}

/// Whether a handover carries the maker's key of every outgoing coin.
pub open spec fn hands_over(privkeys: Seq<SwapPrivkey>, coins: Seq<OutgoingSwapCoin>) -> bool {
    &&& privkeys.len() == coins.len()
    &&& forall|i: int|
        0 <= i < privkeys.len() ==> (#[trigger] privkeys[i]).identifier@.len() == 0
            && coins[i].my_privkey == Some(privkeys[i].key)
}

/// The maker's keys of the outgoing coins, where every coin has one.
pub fn outgoing_keys(coins: &Vec<OutgoingSwapCoin>) -> (r: Option<Vec<SwapPrivkey>>)
    ensures
        r is Some <==> all_keys_known(coins@),
        r matches Some(keys) ==> hands_over(keys@, coins@),
{
    let mut out: Vec<SwapPrivkey> = Vec::new();
    let mut i: usize = 0;
    while i < coins.len()
        invariant
            i <= coins.len(),
            out@.len() == i,
            forall|j: int|
                0 <= j < i ==> (#[trigger] out@[j]).identifier@.len() == 0 && coins@[j].my_privkey
                    == Some(out@[j].key),
        decreases coins.len() - i,
    {
        match coins[i].my_privkey {
            None => {
                assert(coins@[i as int].my_privkey is None);
                return None;
            },
            Some(key) => {
                out.push(SwapPrivkey { identifier: Vec::new(), key });
            },
        }
        i += 1;
    }
    assert forall|j: int| 0 <= j < coins@.len() implies (#[trigger] coins@[j]).my_privkey is Some by {
        assert(coins@[j].my_privkey == Some(out@[j].key));
    }
    Some(out)
}

/// Stores the other party's keys on incoming coins.
pub fn unlock_incoming(coins: &mut Vec<IncomingSwapCoin>, keys: &Vec<SwapPrivkey>)
    ensures
        incoming_models(final(coins)@) == unlocked_incoming(incoming_models(old(coins)@), keys@),
{
    let ghost before = coins@;
    let n = coins.len();
    let mut i: usize = 0;
    while i < n
        invariant
            n == coins@.len(),
            n == before.len(),
            i <= n,
            forall|j: int|
                0 <= j < i ==> (#[trigger] coins@[j])@ == unlocked_incoming(
                    incoming_models(before),
                    keys@,
                )[j],
            forall|j: int| i <= j < n ==> (#[trigger] coins@[j]) == before[j],
        decreases n - i,
    {
        if i < keys.len() {
            coins[i].other_privkey = Some(keys[i].key);
        }
        i += 1;
    }
    assert(incoming_models(coins@) =~= unlocked_incoming(incoming_models(before), keys@));
}

/// The state with the other party's keys on its incoming coins.
pub open spec fn with_keys(state: StateModel, keys: Seq<SwapPrivkey>) -> StateModel {
    StateModel {
        incoming_swapcoins: unlocked_incoming(state.incoming_swapcoins, keys),
        ..state
    }
}

/// The state of a completed swap.
pub open spec fn completed(state: StateModel) -> StateModel {
    StateModel { phase: SwapPhase::Completed, ..state }
}

/// Process a legacy private key handover: where the received keys open the
/// incoming coins, they are stored on them and the maker's keys of the
/// outgoing coins are returned. The swap is completed, with
/// [`complete_swap`], once the coins are saved.
pub fn process_legacy_handover(state: &mut ConnectionState, handover: PrivateKeyHandover) -> (r:
    Result<PrivateKeyHandover, MakerError>)
    ensures
        match legacy_completion_verdict(*old(state), handover) {
            Err(e) => r == Err::<PrivateKeyHandover, MakerError>(e) && final(state)@ == old(
                state,
            )@,
            Ok(_) => {
                &&& r is Ok
                &&& r->Ok_0.id@ == handover.id@
                &&& hands_over(r->Ok_0.privkeys@, old(state).outgoing_swapcoins@)
                &&& final(state)@ == with_keys(old(state)@, handover.privkeys@)
            },
        },
{
    match state.expect_phase(
        SwapPhase::AwaitingPrivateKeyHandover,
        SwapPhase::AwaitingPrivateKeyHandover,
    ) {
        Err(e) => {
            return Err(e);
        },
        Ok(_) => {},
    }
    match state.check_swap_id(handover.id.as_str()) {
        Err(e) => {
            return Err(e);
        },
        Ok(_) => {},
    }
    if state.outgoing_swapcoins.len() == 0 {
        return Err(MakerError::General("No outgoing swapcoin found"));
    }
    match verify_legacy_privkey_handover(&handover.privkeys, &state.incoming_swapcoins) {
        Err(e) => {
            return Err(e);
        },
        Ok(_) => {},
    }
    let privkeys = match outgoing_keys(&state.outgoing_swapcoins) {
        None => {
            return Err(MakerError::General("No private key in outgoing swapcoin"));
        },
        Some(keys) => keys,
    };
    unlock_incoming(&mut state.incoming_swapcoins, &handover.privkeys);
    Ok(PrivateKeyHandover { id: handover.id, privkeys })
}

/// Marks a swap as completed. The coins are swept once the answer has reached
/// the taker.
pub fn complete_swap(state: &mut ConnectionState)
    ensures
        final(state)@ == completed(old(state)@),
{
    state.phase = SwapPhase::Completed;
}

/// The maker's keys leave the maker only for keys that open every incoming
/// coin.
pub proof fn law_keys_are_exchanged(state: ConnectionState, handover: PrivateKeyHandover)
    requires
        legacy_completion_verdict(state, handover) is Ok,
    ensures
        handover.privkeys@.len() == state.incoming_swapcoins@.len(),
        forall|i: int|
            0 <= i < handover.privkeys@.len() ==> state.incoming_swapcoins@[i].other_pubkey is Some
                && crate::primitives::public_key_of((#[trigger] handover.privkeys@[i]).key)
                == state.incoming_swapcoins@[i].other_pubkey,
{
    crate::maker::legacy_verification::law_legacy_handover_accepted(
        handover.privkeys@,
        state.incoming_swapcoins@,
    );
}

/// The amounts of the first `n` incoming coins, in all.
pub open spec fn incoming_total(coins: Seq<IncomingSwapCoin>, n: int) -> int
    decreases n,
{
    if n <= 0 {
        0
    } else {
        incoming_total(coins, n - 1) + coins[n - 1].funding_amount
    }
}

/// The amounts of the first `n` outgoing coins, in all.
pub open spec fn outgoing_total(coins: Seq<OutgoingSwapCoin>, n: int) -> int
    decreases n,
{
    if n <= 0 {
        0
    } else {
        outgoing_total(coins, n - 1) + coins[n - 1].funding_amount
    }
}

/// Fewer coins hold no more.
proof fn lemma_totals_grow(
    incoming: Seq<IncomingSwapCoin>,
    outgoing: Seq<OutgoingSwapCoin>,
    k: int,
    n: int,
)
    requires
        0 <= k <= n,
    ensures
        incoming_total(incoming, k) <= incoming_total(incoming, n),
        outgoing_total(outgoing, k) <= outgoing_total(outgoing, n),
    decreases n - k,
{
    if k < n {
        lemma_totals_grow(incoming, outgoing, k, n - 1);
    }
}

/// What a maker reports of a completed swap.
#[derive(Debug)]
pub struct SuccessReport {
    /// What came in, in satoshis.
    pub incoming_total: u64,
    /// What went out, in satoshis.
    pub outgoing_total: u64,
    /// The maker's fee.
    pub service_fee_sats: u64,
    /// The first incoming contract transaction.
    pub incoming_txid: Option<Txid>,
    /// The first outgoing contract transaction.
    pub outgoing_txid: Option<Txid>,
    /// The timeout of the first outgoing coin, or zero.
    pub timelock: u32,
    /// When the swap was accepted.
    pub swap_start_time: u64,
}

/// The report of a completed swap.
pub fn emit_maker_success_report(state: &ConnectionState) -> (r: SuccessReport)
    requires
        incoming_total(state.incoming_swapcoins@, state.incoming_swapcoins@.len() as int)
            <= u64::MAX,
        outgoing_total(state.outgoing_swapcoins@, state.outgoing_swapcoins@.len() as int)
            <= u64::MAX,
    ensures
        r.incoming_total == incoming_total(
            state.incoming_swapcoins@,
            state.incoming_swapcoins@.len() as int,
        ),
        r.outgoing_total == outgoing_total(
            state.outgoing_swapcoins@,
            state.outgoing_swapcoins@.len() as int,
        ),
        r.service_fee_sats == state.service_fee_sats,
        r.swap_start_time == state.swap_start_time,
        r.incoming_txid == if state.incoming_swapcoins@.len() > 0 {
            Some(txid_of(state.incoming_swapcoins@[0].contract_tx@))
        } else {
            None
        },
        r.outgoing_txid == if state.outgoing_swapcoins@.len() > 0 {
            Some(txid_of(state.outgoing_swapcoins@[0].contract_tx@))
        } else {
            None
        },
        r.timelock == if state.outgoing_swapcoins@.len() > 0
            && state.outgoing_swapcoins@[0].timelock is Some {
            state.outgoing_swapcoins@[0].timelock->0
        } else {
            0
        },
{
    let mut incoming: u64 = 0;
    let mut i: usize = 0;
    while i < state.incoming_swapcoins.len()
        invariant
            i <= state.incoming_swapcoins.len(),
            incoming_total(state.incoming_swapcoins@, state.incoming_swapcoins@.len() as int)
                <= u64::MAX,
            incoming == incoming_total(state.incoming_swapcoins@, i as int),
        decreases state.incoming_swapcoins.len() - i,
    {
        proof {
            lemma_totals_grow(
                state.incoming_swapcoins@,
                state.outgoing_swapcoins@,
                i + 1,
                state.incoming_swapcoins@.len() as int,
            );
        }
        incoming += state.incoming_swapcoins[i].funding_amount;
        i += 1;
    }
    let mut outgoing: u64 = 0;
    let mut k: usize = 0;
    while k < state.outgoing_swapcoins.len()
        invariant
            k <= state.outgoing_swapcoins.len(),
            outgoing_total(state.outgoing_swapcoins@, state.outgoing_swapcoins@.len() as int)
                <= u64::MAX,
            outgoing == outgoing_total(state.outgoing_swapcoins@, k as int),
        decreases state.outgoing_swapcoins.len() - k,
    {
        proof {
            lemma_totals_grow(
                state.incoming_swapcoins@,
                state.outgoing_swapcoins@,
                k + 1,
                state.outgoing_swapcoins@.len() as int,
            );
        }
        outgoing += state.outgoing_swapcoins[k].funding_amount;
        k += 1;
    }
    let incoming_txid: Option<Txid> = if state.incoming_swapcoins.len() > 0 {
        Some(compute_txid(&state.incoming_swapcoins[0].contract_tx))
    } else {
        None
    };
    let (outgoing_txid, timelock): (Option<Txid>, u32) = if state.outgoing_swapcoins.len() > 0 {
        let coin = &state.outgoing_swapcoins[0];
        let timelock: u32 = match coin.timelock {
            Some(blocks) => blocks,
            None => 0,
        };
        (Some(compute_txid(&coin.contract_tx)), timelock)
    } else {
        (None, 0)
    };
    SuccessReport {
        incoming_total: incoming,
        outgoing_total: outgoing,
        service_fee_sats: state.service_fee_sats,
        incoming_txid,
        outgoing_txid,
        timelock,
        swap_start_time: state.swap_start_time,
    }
}

/// The maker signs as receiver exactly where the swap is being set up, under
/// its own name, and the contracts lock for the agreed number of blocks.
pub proof fn law_signs_only_the_agreed_lock(state: StateModel, req: ReqContractSigsForSender)
    ensures
        sender_terms_verdict(state, req) is Ok <==> {
            &&& state.phase == SwapPhase::AwaitingContractData || state.phase
                == SwapPhase::AwaitingSignaturesOrPreimage
            &&& state.swap_id == Some(req.id@)
            &&& req.locktime == state.timelock
        },
        state.phase == SwapPhase::AwaitingSignaturesOrPreimage ==> sender_terms_verdict(state, req)
            == sender_terms_verdict(
            StateModel { phase: SwapPhase::AwaitingContractData, ..state },
            req,
        ),
{
}

/// Each contract of a request is answered with the signature made for it, in
/// the order of the request, and no answer is given where one is missing.
pub proof fn law_every_sender_contract_is_signed(
    tweakable_privkey: SecretKey,
    txs_info: Seq<ContractTxInfoForSender>,
    signed: Seq<Result<Vec<u8>, ProtocolError>>,
    n: int,
)
    requires
        0 <= n <= txs_info.len(),
        signed.len() == txs_info.len(),
    ensures
        sender_signatures(tweakable_privkey, txs_info, signed, n) is Ok <==> forall|i: int|
            0 <= i < n ==> tweaked_secret(
                tweakable_privkey,
                (#[trigger] txs_info[i]).multisig_nonce,
            ) is Some && signed[i] is Ok,
        sender_signatures(tweakable_privkey, txs_info, signed, n) matches Ok(sigs) ==> {
            &&& sigs.len() == n
            &&& forall|i: int| 0 <= i < n ==> signed[i] == Ok::<_, ProtocolError>(#[trigger] sigs[i])
        },
    decreases n,
{
    if n > 0 {
        law_every_sender_contract_is_signed(tweakable_privkey, txs_info, signed, n - 1);
        let sender_ok = sender_signatures(tweakable_privkey, txs_info, signed, n) is Ok;
        let all = forall|i: int|
            0 <= i < n ==> tweaked_secret(
                tweakable_privkey,
                (#[trigger] txs_info[i]).multisig_nonce,
            ) is Some && signed[i] is Ok;
        if all {
            assert(tweaked_secret(tweakable_privkey, txs_info[n - 1].multisig_nonce) is Some);
        }
        assert(sender_ok ==> all);
    }
}

/// The taker's signatures are looked at only after the contracts were sent to
/// it, and where there is one for each coin on either side.
pub proof fn law_a_signature_for_every_coin(
    state: ConnectionState,
    resp: RespContractSigsForRecvrAndSender,
)
    ensures
        signature_terms_verdict(state, resp) is Ok <==> {
            &&& state.phase == SwapPhase::AwaitingSignaturesOrPreimage
            &&& text_model(state.swap_id) == Some(resp.id@)
            &&& resp.receivers_sigs@.len() == state.incoming_swapcoins@.len()
            &&& resp.senders_sigs@.len() == state.outgoing_swapcoins@.len()
        },
{
}

/// A stored signature stands on the coin at its own position, and nothing else
/// of the coin changes: signing with the signature that a coin carries gives
/// the coin back.
pub proof fn law_signatures_stand_on_their_coins(
    incoming: Seq<IncomingModel>,
    outgoing: Seq<OutgoingModel>,
    sigs: Seq<Vec<u8>>,
    i: int,
)
    ensures
        signed_incoming(incoming, sigs).len() == incoming.len(),
        signed_outgoing(outgoing, sigs).len() == outgoing.len(),
        0 <= i < incoming.len() ==> signed_incoming(incoming, sigs)[i].others_contract_sig == Some(
            sigs[i]@,
        ),
        0 <= i < outgoing.len() ==> signed_outgoing(outgoing, sigs)[i].others_contract_sig == Some(
            sigs[i]@,
        ),
        0 <= i < incoming.len() && incoming[i].others_contract_sig == Some(sigs[i]@)
            ==> signed_incoming(incoming, sigs)[i] == incoming[i],
        0 <= i < outgoing.len() && outgoing[i].others_contract_sig == Some(sigs[i]@)
            ==> signed_outgoing(outgoing, sigs)[i] == outgoing[i],
        0 <= i < incoming.len() ==> (IncomingModel {
            others_contract_sig: incoming[i].others_contract_sig,
            ..signed_incoming(incoming, sigs)[i]
        }) == incoming[i],
        0 <= i < outgoing.len() ==> (OutgoingModel {
            others_contract_sig: outgoing[i].others_contract_sig,
            ..signed_outgoing(outgoing, sigs)[i]
        }) == outgoing[i],
{
}

/// Every watch is armed, every coin saved and every funding transaction
/// broadcast, each exactly once, and the watchtower is asked in between.
pub proof fn law_funding_leaves_nothing_out(
    watches: nat,
    incoming: nat,
    outgoing: nat,
    txes: nat,
    k: int,
)
    requires
        watches + incoming + outgoing + txes < usize::MAX,
    ensures
        funding_steps(watches, incoming, outgoing, txes).len() == watches + incoming + outgoing
            + txes + 1,
        funding_steps(watches, incoming, outgoing, txes).no_duplicates(),
        funding_steps(watches, incoming, outgoing, txes).contains(FundingStep::EnsureWatchtower),
        0 <= k < watches ==> funding_steps(watches, incoming, outgoing, txes).contains(
            FundingStep::Watch(k as usize),
        ),
        0 <= k < incoming ==> funding_steps(watches, incoming, outgoing, txes).contains(
            FundingStep::SaveIncoming(k as usize),
        ),
        0 <= k < outgoing ==> funding_steps(watches, incoming, outgoing, txes).contains(
            FundingStep::SaveOutgoing(k as usize),
        ),
        0 <= k < txes ==> funding_steps(watches, incoming, outgoing, txes).contains(
            FundingStep::Broadcast(k as usize),
        ),
{
    let steps = funding_steps(watches, incoming, outgoing, txes);
    assert(steps[watches as int] == FundingStep::EnsureWatchtower);
    if 0 <= k < watches {
        assert(steps[k] == FundingStep::Watch(k as usize));
    }
    if 0 <= k < incoming {
        assert(steps[watches + 1 + k] == FundingStep::SaveIncoming(k as usize));
    }
    if 0 <= k < outgoing {
        assert(steps[watches + 1 + incoming + k] == FundingStep::SaveOutgoing(k as usize));
    }
    if 0 <= k < txes {
        assert(steps[watches + 1 + incoming + outgoing + k] == FundingStep::Broadcast(k as usize));
    }
}

/// The watchtower is asked once every watch is armed, and before any coin is
/// saved.
pub proof fn law_watches_come_first(
    watches: nat,
    incoming: nat,
    outgoing: nat,
    txes: nat,
    i: int,
    j: int,
)
    requires
        0 <= i < funding_steps(watches, incoming, outgoing, txes).len(),
        0 <= j < funding_steps(watches, incoming, outgoing, txes).len(),
        funding_steps(watches, incoming, outgoing, txes)[i] is EnsureWatchtower,
    ensures
        funding_steps(watches, incoming, outgoing, txes)[j] is Watch <==> j < i,
        funding_steps(watches, incoming, outgoing, txes)[j] is EnsureWatchtower <==> i == j,
{
}

/// What a failed broadcast is forgiven for: a transaction that the backend
/// knows, the code -27, or one of four messages in whatever case they come.
pub proof fn law_only_known_transactions_are_forgiven(
    error: MakerError,
    code: i32,
    message: String,
    other: String,
)
    requires
        error == MakerError::Wallet(WalletFault::Rpc { code, message }),
    ensures
        already_broadcast(error, true),
        code == -27 ==> already_broadcast(error, false),
        code != -27 && already_broadcast(error, false) ==> ({
            ||| occurs_in(lower_case(message@), "already in block chain"@)
            ||| occurs_in(lower_case(message@), "already in mempool"@)
            ||| occurs_in(lower_case(message@), "already in utxo set"@)
            ||| occurs_in(lower_case(message@), "txn-already-in-mempool"@)
        }),
        occurs_in(lower_case(message@), "already in block chain"@) ==> already_broadcast(
            error,
            false,
        ),
        occurs_in(lower_case(message@), "already in mempool"@) ==> already_broadcast(error, false),
        occurs_in(lower_case(message@), "already in utxo set"@) ==> already_broadcast(error, false),
        occurs_in(lower_case(message@), "txn-already-in-mempool"@) ==> already_broadcast(
            error,
            false,
        ),
        lower_case(other@) == lower_case(message@) ==> already_broadcast(
            MakerError::Wallet(WalletFault::Rpc { code, message: other }),
            false,
        ) == already_broadcast(error, false),
{
}

/// No other error is forgiven where the backend does not know the transaction.
pub proof fn law_other_errors_stand(error: MakerError)
    requires
        !(error matches MakerError::Wallet(WalletFault::Rpc { .. })),
    ensures
        !already_broadcast(error, false),
        already_broadcast(error, true),
{
}

/// A text has the length of its lower case, of which no further lower case is
/// taken and in which no capital is left.
pub proof fn law_lower_case_is_idempotent(text: Seq<char>, i: int)
    requires
        0 <= i < text.len(),
    ensures
        lower_case(text).len() == text.len(),
        lower_case(lower_case(text)) == lower_case(text),
        !('A' <= lower_case(text)[i] <= 'Z'),
        !('A' <= text[i] <= 'Z') ==> lower_case(text)[i] == text[i],
        'A' <= text[i] <= 'Z' ==> lower_case(text)[i] as int - 'a' as int == text[i] as int
            - 'A' as int,
{
    assert(lower_case(lower_case(text)) =~= lower_case(text));
}

/// A text contains what stands in it at any place, and nothing longer.
pub proof fn law_parts_occur(before: Seq<char>, part: Seq<char>, after: Seq<char>)
    ensures
        occurs_in(before + part + after, part),
        before.len() < part.len() ==> !occurs_in(before, part),
{
    assert((before + part + after).subrange(before.len() as int, (before.len() + part.len()) as int)
        =~= part);
    assert(occurs_at(before + part + after, part, before.len() as int));
}

/// The maker signs, with its own key of the coin, only a contract with one
/// input and one output that spends the funding transaction of the coin.
pub proof fn law_signs_spends_of_its_own_funding(
    info: ContractTxInfoForRecvr,
    coin: Option<OutgoingSwapCoin>,
    i: usize,
)
    ensures
        receiver_contract_verdict(info, coin, i) is Ok <==> {
            &&& info.contract_tx.input@.len() == 1
            &&& info.contract_tx.output@.len() == 1
            &&& coin is Some
            &&& coin->0.my_privkey is Some
            &&& coin->0.funding_tx is Some ==> info.contract_tx.input@[0].previous_output.txid
                == txid_of(coin->0.funding_tx->0@)
        },
        receiver_contract_verdict(info, coin, i) matches Ok(key) ==> coin->0.my_privkey == Some(
            key,
        ),
        receiver_contract_verdict(info, coin, i) matches Err(
            MakerError::ItemTxid { index, found, expected, .. },
        ) ==> {
            &&& index == i
            &&& found == info.contract_tx.input@[0].previous_output.txid
            &&& expected == txid_of(coin->0.funding_tx->0@)
            &&& found != expected
        },
        receiver_contract_verdict(info, coin, i) matches Err(
            MakerError::Structure { index, inputs, outputs, .. },
        ) ==> index == i && (inputs != 1 || outputs != 1),
{
    assert(info.contract_tx.input.len() == info.contract_tx.input@.len());
    assert(info.contract_tx.output.len() == info.contract_tx.output@.len());
}

/// Each receiver contract is answered with the signature made for it, in the
/// order of the request, where every one of them may be signed.
pub proof fn law_every_receiver_contract_is_signed(
    txs: Seq<ContractTxInfoForRecvr>,
    coins: Seq<Option<OutgoingSwapCoin>>,
    signed: Seq<Result<Vec<u8>, ProtocolError>>,
    n: int,
)
    requires
        0 <= n <= txs.len() <= usize::MAX,
        coins.len() == txs.len(),
        signed.len() == txs.len(),
    ensures
        receiver_signatures(txs, coins, signed, n) is Ok <==> forall|i: int|
            0 <= i < n ==> receiver_contract_verdict(txs[i], coins[i], i as usize) is Ok
                && #[trigger] signed[i] is Ok,
        receiver_signatures(txs, coins, signed, n) matches Ok(sigs) ==> {
            &&& sigs.len() == n
            &&& forall|i: int| 0 <= i < n ==> signed[i] == Ok::<_, ProtocolError>(#[trigger] sigs[i])
        },
    decreases n,
{
    if n > 0 {
        law_every_receiver_contract_is_signed(txs, coins, signed, n - 1);
        let ok = receiver_signatures(txs, coins, signed, n) is Ok;
        let all = forall|i: int|
            0 <= i < n ==> receiver_contract_verdict(txs[i], coins[i], i as usize) is Ok
                && #[trigger] signed[i] is Ok;
        if all {
            assert(signed[n - 1] is Ok);
        }
        assert(ok ==> all);
    }
}

/// The maker signs as sender only once its funding is on its way, and for the
/// swap of the connection.
pub proof fn law_signs_as_sender_after_funding(
    state: StateModel,
    req: ReqContractSigsForRecvr,
    coins: Seq<Option<OutgoingSwapCoin>>,
    signed: Seq<Result<Vec<u8>, ProtocolError>>,
)
    requires
        coins.len() == req.txs@.len(),
        signed.len() == req.txs@.len(),
    ensures
        receiver_request_verdict(state, req, coins, signed) is Ok <==> {
            &&& state.phase == SwapPhase::AwaitingPrivateKeyHandover
            &&& state.swap_id == Some(req.id@)
            &&& forall|i: int|
                0 <= i < req.txs@.len() ==> receiver_contract_verdict(
                    req.txs@[i],
                    coins[i],
                    i as usize,
                ) is Ok && #[trigger] signed[i] is Ok
        },
        receiver_request_verdict(state, req, coins, signed) matches Ok(sigs) ==> sigs.len()
            == req.txs@.len() && forall|i: int|
            0 <= i < sigs.len() ==> signed[i] == Ok::<_, ProtocolError>(#[trigger] sigs[i]),
{
    assert(req.txs.len() == req.txs@.len());
    law_every_receiver_contract_is_signed(req.txs@, coins, signed, req.txs@.len() as int);
}

/// A handover is taken exactly where the funding is on its way, the maker has
/// the keys of its outgoing coins, of which there is one at least, and the
/// received keys open the incoming coins.
pub proof fn law_handover_is_taken(state: ConnectionState, handover: PrivateKeyHandover)
    ensures
        legacy_completion_verdict(state, handover) is Ok <==> {
            &&& state.phase == SwapPhase::AwaitingPrivateKeyHandover
            &&& text_model(state.swap_id) == Some(handover.id@)
            &&& state.outgoing_swapcoins@.len() > 0
            &&& legacy_handover_verdict(handover.privkeys@, state.incoming_swapcoins@) is Ok
            &&& forall|i: int|
                0 <= i < state.outgoing_swapcoins@.len()
                    ==> (#[trigger] state.outgoing_swapcoins@[i]).my_privkey is Some
        },
{
}

/// A received key stands on the incoming coin at its own position as the other
/// party's key, and nothing else of the coins changes.
pub proof fn law_received_keys_stand_on_their_coins(
    coins: Seq<IncomingModel>,
    keys: Seq<SwapPrivkey>,
    i: int,
)
    requires
        0 <= i < coins.len(),
    ensures
        unlocked_incoming(coins, keys).len() == coins.len(),
        i < keys.len() ==> unlocked_incoming(coins, keys)[i].other_privkey == Some(keys[i].key),
        i >= keys.len() ==> unlocked_incoming(coins, keys)[i] == coins[i],
        (IncomingModel {
            other_privkey: coins[i].other_privkey,
            ..unlocked_incoming(coins, keys)[i]
        }) == coins[i],
{
}

/// After a completed handover every incoming coin holds a key whose public key
/// is the other party's of that coin, so that the maker can spend it, and the
/// other party holds the maker's key of every outgoing coin.
pub proof fn law_both_sides_can_spend(
    state: ConnectionState,
    handover: PrivateKeyHandover,
    answer: Seq<SwapPrivkey>,
    i: int,
)
    requires
        legacy_completion_verdict(state, handover) is Ok,
        hands_over(answer, state.outgoing_swapcoins@),
    ensures
        0 <= i < state.incoming_swapcoins@.len() ==> {
            let coin = unlocked_incoming(
                incoming_models(state.incoming_swapcoins@),
                handover.privkeys@,
            )[i];
            &&& coin.other_privkey is Some
            &&& crate::primitives::public_key_of(coin.other_privkey->0)
                == state.incoming_swapcoins@[i].other_pubkey
        },
        0 <= i < state.outgoing_swapcoins@.len() ==> answer.len()
            == state.outgoing_swapcoins@.len() && state.outgoing_swapcoins@[i].my_privkey == Some(
            answer[i].key,
        ) && answer[i].identifier@ == Seq::<u8>::empty(),
{
    law_keys_are_exchanged(state, handover);
    if 0 <= i < state.outgoing_swapcoins@.len() {
        assert(answer[i].identifier@ =~= Seq::<u8>::empty());
    }
}

/// The totals of a report grow by the amount of each further coin and do not
/// depend on where a split of the coins is made.
pub proof fn law_totals_add_up(
    a: Seq<IncomingSwapCoin>,
    b: Seq<IncomingSwapCoin>,
    c: Seq<OutgoingSwapCoin>,
    d: Seq<OutgoingSwapCoin>,
)
    ensures
        incoming_total(a + b, (a + b).len() as int) == incoming_total(a, a.len() as int)
            + incoming_total(b, b.len() as int),
        outgoing_total(c + d, (c + d).len() as int) == outgoing_total(c, c.len() as int)
            + outgoing_total(d, d.len() as int),
        b.len() == 1 ==> incoming_total(b, 1) == b[0].funding_amount,
        d.len() == 1 ==> outgoing_total(d, 1) == d[0].funding_amount,
{
    lemma_incoming_split(a, b, b.len() as int);
    lemma_outgoing_split(c, d, d.len() as int);
    reveal_with_fuel(incoming_total, 2);
    reveal_with_fuel(outgoing_total, 2);
}

proof fn lemma_incoming_split(a: Seq<IncomingSwapCoin>, b: Seq<IncomingSwapCoin>, n: int)
    requires
        0 <= n <= b.len(),
    ensures
        incoming_total(a + b, a.len() + n) == incoming_total(a, a.len() as int) + incoming_total(
            b,
            n,
        ),
    decreases n,
{
    if n > 0 {
        lemma_incoming_split(a, b, n - 1);
        assert((a + b)[a.len() + n - 1] == b[n - 1]);
    } else {
        lemma_incoming_prefix(a, b, a.len() as int);
    }
}

proof fn lemma_incoming_prefix(a: Seq<IncomingSwapCoin>, b: Seq<IncomingSwapCoin>, n: int)
    requires
        0 <= n <= a.len(),
    ensures
        incoming_total(a + b, n) == incoming_total(a, n),
    decreases n,
{
    if n > 0 {
        lemma_incoming_prefix(a, b, n - 1);
    }
}

proof fn lemma_outgoing_split(a: Seq<OutgoingSwapCoin>, b: Seq<OutgoingSwapCoin>, n: int)
    requires
        0 <= n <= b.len(),
    ensures
        outgoing_total(a + b, a.len() + n) == outgoing_total(a, a.len() as int) + outgoing_total(
            b,
            n,
        ),
    decreases n,
{
    if n > 0 {
        lemma_outgoing_split(a, b, n - 1);
        assert((a + b)[a.len() + n - 1] == b[n - 1]);
    } else {
        lemma_outgoing_prefix(a, b, a.len() as int);
    }
}

proof fn lemma_outgoing_prefix(a: Seq<OutgoingSwapCoin>, b: Seq<OutgoingSwapCoin>, n: int)
    requires
        0 <= n <= a.len(),
    ensures
        outgoing_total(a + b, n) == outgoing_total(a, n),
    decreases n,
{
    if n > 0 {
        lemma_outgoing_prefix(a, b, n - 1);
    }
}

/// From the signatures to the end a legacy swap goes one way: the coins get the
/// signatures, the funding goes out and nothing of it is pending any more, the
/// coins get the keys, and the swap is completed. The signatures and the keys
/// stand on the coins at the end, and the terms are those agreed.
pub proof fn law_legacy_swap_runs_to_completion(
    state: StateModel,
    receivers_sigs: Seq<Vec<u8>>,
    senders_sigs: Seq<Vec<u8>>,
    keys: Seq<SwapPrivkey>,
    i: int,
)
    requires
        keys.len() == state.incoming_swapcoins.len(),
    ensures
        ({
            let signed = with_signatures(state, receivers_sigs, senders_sigs);
            let out = funded(signed);
            let open = with_keys(out, keys);
            let done = completed(open);
            &&& signed.phase == state.phase
            &&& signed.pending_funding_txes == state.pending_funding_txes
            &&& signed.funding_broadcast == state.funding_broadcast
            &&& out.phase == SwapPhase::AwaitingPrivateKeyHandover
            &&& out.funding_broadcast
            &&& out.pending_funding_txes.len() == 0
            &&& open.phase == out.phase
            &&& done.phase == SwapPhase::Completed
            &&& done.funding_broadcast
            &&& done.swap_amount == state.swap_amount
            &&& done.timelock == state.timelock
            &&& done.swap_id == state.swap_id
            &&& done.service_fee_sats == state.service_fee_sats
            &&& done.reserve_utxo == state.reserve_utxo
            &&& 0 <= i < state.incoming_swapcoins.len() ==> {
                &&& done.incoming_swapcoins[i].others_contract_sig == Some(receivers_sigs[i]@)
                &&& done.incoming_swapcoins[i].other_privkey == Some(keys[i].key)
                &&& done.incoming_swapcoins[i].my_privkey == state.incoming_swapcoins[i].my_privkey
                &&& done.incoming_swapcoins[i].contract_tx
                    == state.incoming_swapcoins[i].contract_tx
            }
            &&& 0 <= i < state.outgoing_swapcoins.len() ==> {
                &&& done.outgoing_swapcoins[i].others_contract_sig == Some(senders_sigs[i]@)
                &&& done.outgoing_swapcoins[i].my_privkey == state.outgoing_swapcoins[i].my_privkey
                &&& done.outgoing_swapcoins[i].contract_tx
                    == state.outgoing_swapcoins[i].contract_tx
            }
        }),
{
}

/// A broadcast succeeds where it did or where the backend knows the
/// transaction; a failure that is not forgiven is told as it came.
pub proof fn law_broadcasts_are_settled(e: MakerError, known: bool)
    ensures
        settled(Ok(()), known) is Ok,
        settled(Err(e), true) is Ok,
        settled(Err(e), false) is Ok <==> already_broadcast(e, false),
        settled(Err(e), known) is Err ==> settled(Err(e), known) == Err::<(), MakerError>(e),
{
}

} // verus!
